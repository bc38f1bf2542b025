//! The service's startup configuration: an immutable value built once
//! from whatever the environment supplied, with defaults applied here.

use vstd::prelude::*;
use vstd::string::StringExecFns;
use crate::text;

verus! {

/// The configuration the server runs with. Every field is kept as the
/// textual form it was supplied in; the numeric readings are below.
pub struct RpcService {
    pub ip: String,
    pub port: String,
    pub logging: String,
    pub workers: String,
}

/// The supplied value, or the default where none was supplied.
fn or_default(supplied: Option<String>, default: &str) -> (r: String)
    ensures
        r@ == match supplied {
            Some(v) => v@,
            None => default@,
        },
{
    match supplied {
        Some(v) => v,
        None => String::from_str(default),
    }
}

impl RpcService {
    /// Build the configuration from the optional environment values,
    /// applying the documented defaults: address "0.0.0.0", port "80",
    /// log level "info", one worker.
    pub fn new(
        ip: Option<String>,
        port: Option<String>,
        logging: Option<String>,
        workers: Option<String>,
    ) -> (s: Self)
        ensures
            s.ip@ == (match ip {
                Some(v) => v@,
                None => "0.0.0.0"@,
            }),
            s.port@ == (match port {
                Some(v) => v@,
                None => "80"@,
            }),
            s.logging@ == (match logging {
                Some(v) => v@,
                None => "info"@,
            }),
            s.workers@ == (match workers {
                Some(v) => v@,
                None => "1"@,
            }),
    {
        Self {
            ip: or_default(ip, "0.0.0.0"),
            port: or_default(port, "80"),
            logging: or_default(logging, "info"),
            workers: or_default(workers, "1"),
        }
    }

    /// The URL the service answers on, `schema://ip:port`.
    pub fn backend_url(&self, schema: &str) -> (r: String)
        ensures
            r@ == schema@ + "://"@ + self.ip@ + ":"@ + self.port@,
    {
        let mut out = String::from_str(schema);
        out.append("://");
        out.append(self.ip.as_str());
        out.append(":");
        out.append(self.port.as_str());
        proof {
            assert(out@ =~= schema@ + "://"@ + self.ip@ + ":"@ + self.port@);
        }
        out
    }

    /// The port as a number; `None` when the text is not a plain decimal
    /// numeral in range.
    pub fn port_value(&self) -> (r: Option<u16>)
        ensures
            match r {
                Some(v) => self.port@.len() > 0 && text::all_digits(self.port@)
                    && v == text::dec_value(self.port@),
                None => self.port@.len() == 0 || !text::all_digits(self.port@)
                    || text::dec_value(self.port@) > u16::MAX,
            },
    {
        match text::parse_u64(self.port.as_str()) {
            Some(v) => if v <= u16::MAX as u64 {
                Some(v as u16)
            } else {
                None
            },
            None => None,
        }
    }

    /// The worker count as a number; `None` when the text is not a plain
    /// decimal numeral in range.
    pub fn workers_value(&self) -> (r: Option<usize>)
        ensures
            match r {
                Some(v) => self.workers@.len() > 0 && text::all_digits(self.workers@)
                    && v == text::dec_value(self.workers@),
                None => self.workers@.len() == 0 || !text::all_digits(self.workers@)
                    || text::dec_value(self.workers@) > usize::MAX,
            },
    {
        match text::parse_u64(self.workers.as_str()) {
            Some(v) => if v <= usize::MAX as u64 {
                Some(v as usize)
            } else {
                None
            },
            None => None,
        }
    }
}

} // verus!

//! The response assembler: a one-element batch is unwrapped to a bare
//! object whose error decides the HTTP status; any other batch — the
//! empty one included — is an array answered with status 200.

use vstd::prelude::*;
use crate::rpc::{Response, spec_status_of};

verus! {

/// The body shape of the HTTP reply: a bare response object for a
/// singleton batch, an array of responses otherwise.
pub enum HttpPayload {
    Single(Response),
    Many(Vec<Response>),
}

/// The finished HTTP reply: a status code and the body to serialize.
pub struct HttpReply {
    pub status: u16,
    pub payload: HttpPayload,
}

/// Assemble the finalized responses into the HTTP reply. Exactly one
/// response is emitted bare, with the status its error code maps to;
/// zero or several are emitted as an array with status 200, however many
/// of them carry errors.
pub fn assemble(responses: Vec<Response>) -> (r: HttpReply)
    ensures
        responses@.len() == 1 ==> (r.payload matches HttpPayload::Single(resp) && resp
            == responses@[0] && r.status == spec_status_of(responses@[0])),
        responses@.len() != 1 ==> (r.payload matches HttpPayload::Many(v) && v@ == responses@
            && r.status == 200),
{
    if responses.len() == 1 {
        let mut responses = responses;
        let single = responses.pop().unwrap();
        let status = single.status_code();
        HttpReply { status, payload: HttpPayload::Single(single) }
    } else {
        HttpReply { status: 200, payload: HttpPayload::Many(responses) }
    }
}

} // verus!

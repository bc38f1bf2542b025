//! The JSON-RPC request and response model: envelope validation, the
//! reserved error codes, and the error-code to HTTP-status mapping.

use vstd::prelude::*;
use crate::json::JsonValue;

verus! {

/// An inbound request envelope. Parsed once at the transport boundary,
/// read-only afterwards.
pub struct Request {
    pub jsonrpc: String,
    pub id: JsonValue,
    pub method: String,
    pub params: Option<JsonValue>,
}

/// The protocol version a request must carry.
pub open spec fn version_ok(req: Request) -> bool {
    req.jsonrpc@ == "2.0"@
}

/// A request id must be a number, a string, or null.
pub open spec fn id_ok(id: JsonValue) -> bool {
    id.is_id_shaped()
}

impl Request {
    /// The envelope names protocol version "2.0".
    pub fn version_is_valid(&self) -> (r: bool)
        ensures
            r == version_ok(*self),
    {
        self.jsonrpc == String::from_str("2.0")
    }

    /// The id is a number, a string, or null; any other JSON shape is
    /// invalid and cannot be echoed back.
    pub fn id_is_valid(&self) -> (r: bool)
        ensures
            r == id_ok(self.id),
    {
        match &self.id {
            JsonValue::Null => true,
            JsonValue::Int(_) => true,
            JsonValue::Uint(_) => true,
            JsonValue::Float(_) => true,
            JsonValue::Str(_) => true,
            JsonValue::Bool(_) => false,
            JsonValue::Array(_) => false,
            JsonValue::Object(_) => false,
        }
    }
}

/// The reserved protocol errors, plus the implementation-defined
/// server-error representative.
#[derive(Clone, Copy, Debug, PartialEq, Eq, Structural)]
pub enum Errors {
    ParseError,
    InvalidRequest,
    MethodNotFound,
    InvalidParams,
    InternalError,
    ServerError,
}

impl Errors {
    /// The reserved JSON-RPC code of this error.
    pub open spec fn spec_code(self) -> i32 {
        match self {
            Errors::ParseError => -32700i32,
            Errors::InvalidRequest => -32600i32,
            Errors::MethodNotFound => -32601i32,
            Errors::InvalidParams => -32602i32,
            Errors::InternalError => -32603i32,
            Errors::ServerError => -32000i32,
        }
    }

    /// The standard message text of this error.
    pub open spec fn spec_message(self) -> Seq<char> {
        match self {
            Errors::ParseError => "Parse error"@,
            Errors::InvalidRequest => "Invalid Request"@,
            Errors::MethodNotFound => "Method not found"@,
            Errors::InvalidParams => "Invalid params"@,
            Errors::InternalError => "Internal error"@,
            Errors::ServerError => "Server error"@,
        }
    }

    /// The HTTP status an error of this kind maps to.
    pub open spec fn spec_status(self) -> u16 {
        match self {
            Errors::ParseError => 500,
            Errors::InvalidRequest => 400,
            Errors::MethodNotFound => 404,
            Errors::InvalidParams => 500,
            Errors::InternalError => 500,
            Errors::ServerError => 500,
        }
    }

    pub fn code(&self) -> (c: i32)
        ensures
            c == self.spec_code(),
    {
        match self {
            Errors::ParseError => -32700,
            Errors::InvalidRequest => -32600,
            Errors::MethodNotFound => -32601,
            Errors::InvalidParams => -32602,
            Errors::InternalError => -32603,
            Errors::ServerError => -32000,
        }
    }

    pub fn message(&self) -> (m: String)
        ensures
            m@ == self.spec_message(),
    {
        match self {
            Errors::ParseError => String::from_str("Parse error"),
            Errors::InvalidRequest => String::from_str("Invalid Request"),
            Errors::MethodNotFound => String::from_str("Method not found"),
            Errors::InvalidParams => String::from_str("Invalid params"),
            Errors::InternalError => String::from_str("Internal error"),
            Errors::ServerError => String::from_str("Server error"),
        }
    }

    /// Package this error kind, with optional detail data, as a response
    /// error object.
    pub fn to_error(self, data: Option<JsonValue>) -> (e: Error)
        ensures
            e.code == self.spec_code(),
            e.message@ == self.spec_message(),
            e.data == data,
    {
        Error::new(self, data)
    }

    pub fn status_code(&self) -> (s: u16)
        ensures
            s == self.spec_status(),
    {
        match self {
            Errors::ParseError => 500,
            Errors::InvalidRequest => 400,
            Errors::MethodNotFound => 404,
            Errors::InvalidParams => 500,
            Errors::InternalError => 500,
            Errors::ServerError => 500,
        }
    }
}

/// A response error object: a reserved code, its message, and optional
/// detail data.
pub struct Error {
    pub code: i32,
    pub message: String,
    pub data: Option<JsonValue>,
}

impl Error {
    pub fn new(error: Errors, data: Option<JsonValue>) -> (e: Self)
        ensures
            e.code == error.spec_code(),
            e.message@ == error.spec_message(),
            e.data == data,
    {
        Self { code: error.code(), message: error.message(), data }
    }
}

/// The error object is exactly the one `kind` makes, carrying `data`.
pub open spec fn error_is(e: Error, kind: Errors, data: Option<JsonValue>) -> bool {
    e.code == kind.spec_code() && e.message@ == kind.spec_message() && e.data == data
}

/// An outbound response envelope, bound to one request's id.
pub struct Response {
    pub jsonrpc: String,
    pub id: JsonValue,
    pub result: Option<JsonValue>,
    pub error: Option<Error>,
}

/// A finalized response carries exactly one of result and error.
pub open spec fn exclusive_ok(resp: Response) -> bool {
    (resp.result is Some && resp.error is None) || (resp.result is None && resp.error is Some)
}

/// The HTTP status a reserved code maps to; anything unmapped is a
/// server-side failure.
pub open spec fn status_of_code(code: i32) -> u16 {
    if code == -32700 {
        500
    } else if code == -32600 {
        400
    } else if code == -32601 {
        404
    } else {
        500
    }
}

/// The HTTP status of a single response: 200 without an error, else the
/// status its error code maps to.
pub open spec fn spec_status_of(resp: Response) -> u16 {
    match resp.error {
        None => 200,
        Some(e) => status_of_code(e.code),
    }
}

impl Response {
    /// An in-progress response bound to `id`, version always "2.0".
    pub fn new(id: JsonValue, result: Option<JsonValue>, error: Option<Error>) -> (resp: Self)
        ensures
            resp.jsonrpc@ == "2.0"@,
            resp.id == id,
            resp.result == result,
            resp.error == error,
    {
        Self { jsonrpc: String::from_str("2.0"), id, result, error }
    }

    /// The HTTP status this one response maps to.
    pub fn status_code(&self) -> (s: u16)
        ensures
            s == spec_status_of(*self),
    {
        if let Some(e) = &self.error {
            if e.code == -32700 {
                Errors::ParseError.status_code()
            } else if e.code == -32600 {
                Errors::InvalidRequest.status_code()
            } else if e.code == -32601 {
                Errors::MethodNotFound.status_code()
            } else if e.code == -32602 {
                Errors::InvalidParams.status_code()
            } else if e.code == -32603 {
                Errors::InternalError.status_code()
            } else if e.code == -32000 {
                Errors::ServerError.status_code()
            } else {
                Errors::ServerError.status_code()
            }
        } else {
            200
        }
    }
}

/// The dispatcher's safety net: a response that reports both a result
/// and an error, or neither, is overwritten with an invalid-request
/// error; a well-formed response passes through unchanged.
pub fn enforce_exclusivity(response: Response) -> (r: Response)
    ensures
        r.jsonrpc == response.jsonrpc,
        r.id == response.id,
        exclusive_ok(r),
        exclusive_ok(response) ==> r == response,
        !exclusive_ok(response) ==> (r.result is None && (r.error matches Some(e)
            && error_is(e, Errors::InvalidRequest, None))),
{
    let bad = match (&response.result, &response.error) {
        (Option::Some(_), Option::Some(_)) => true,
        (Option::None, Option::None) => true,
        _ => false,
    };
    if bad {
        Response {
            jsonrpc: response.jsonrpc,
            id: response.id,
            result: None,
            error: Some(Errors::InvalidRequest.to_error(None)),
        }
    } else {
        response
    }
}

} // verus!

//! The method handlers: the status probe, the phone-number validator,
//! and the error helpers.

use vstd::prelude::*;
use crate::json::JsonValue;
use crate::phone;
use crate::phone::PhoneParser;
use crate::rpc::{Errors, Request, Response, error_is};

verus! {

/// The status probe's result object: `{"status": true, "timestamp": now}`.
pub open spec fn healthcheck_value(v: JsonValue, now_secs: u64) -> bool {
    &&& v matches JsonValue::Object(fields)
    &&& fields@.len() == 2
    &&& fields@[0].0@ == "status"@
    &&& fields@[0].1 == JsonValue::Bool(true)
    &&& fields@[1].0@ == "timestamp"@
    &&& fields@[1].1 == JsonValue::Uint(now_secs)
}

/// The validator's result object: `{"number": rendering-or-null}` for
/// the given raw number, judged against the default area codes.
pub open spec fn number_result_value(v: JsonValue, number: Seq<char>) -> bool {
    &&& v matches JsonValue::Object(fields)
    &&& fields@.len() == 1
    &&& fields@[0].0@ == "number"@
    &&& match phone::spec_phone_result(number, phone::default_phone_codes()) {
        Some(f) => fields@[0].1 matches JsonValue::Str(out) && out@ == f,
        None => fields@[0].1 is Null,
    }
}

/// The detail object a missing `number` parameter is reported with.
pub open spec fn missing_number_error(e: crate::rpc::Error) -> bool {
    &&& e.code == Errors::InvalidParams.spec_code()
    &&& e.message@ == Errors::InvalidParams.spec_message()
    &&& e.data matches Some(JsonValue::Object(d))
    &&& e.data->Some_0->Object_0@.len() == 1
    &&& e.data->Some_0->Object_0@[0].0@ == "detail"@
    &&& e.data->Some_0->Object_0@[0].1 matches JsonValue::Str(s) && s@ == "number is None"@
}

/// What the phone validator leaves in a response that started blank:
/// an invalid-params error without a `params` object or a string
/// `number` member, the rendering (or null) otherwise.
pub open spec fn validated_outcome(params: Option<JsonValue>, r: Response) -> bool {
    match params {
        None => r.result is None && (r.error matches Some(e) && error_is(
            e,
            Errors::InvalidParams,
            None,
        )),
        Some(p) => match p.spec_get("number"@) {
            None => r.result is None && (r.error matches Some(e) && missing_number_error(e)),
            Some(v) => match v {
                JsonValue::Str(num) => r.error is None && (r.result matches Some(out)
                    && number_result_value(out, num@)),
                _ => r.result is None && (r.error matches Some(e) && error_is(
                    e,
                    Errors::InvalidParams,
                    None,
                )),
            },
        },
    }
}

/// The ready-made response for a body that never parsed into requests:
/// a null id carrying the invalid-request error.
pub fn invalid_request() -> (r: Response)
    ensures
        r.jsonrpc@ == "2.0"@,
        r.id is Null,
        r.result is None,
        r.error matches Some(e) && error_is(e, Errors::InvalidRequest, None),
{
    Response::new(JsonValue::Null, None, Some(Errors::InvalidRequest.to_error(None)))
}

/// Record `error` on the response, leaving id and result as they were.
pub fn error_handler(
    request: &Request,
    response: Response,
    error: Errors,
    data: Option<JsonValue>,
) -> (r: Response)
    ensures
        r.jsonrpc == response.jsonrpc,
        r.id == response.id,
        r.result == response.result,
        r.error matches Some(e) && error_is(e, error, data),
{
    Response { error: Some(error.to_error(data)), ..response }
}

/// The status probe: reports liveness and the clock reading the caller
/// supplies, taken at the moment of the call.
pub fn healthcheck_handler(request: &Request, response: Response, now_secs: u64) -> (r: Response)
    ensures
        r.jsonrpc == response.jsonrpc,
        r.id == response.id,
        r.error == response.error,
        r.result matches Some(v) && healthcheck_value(v, now_secs),
{
    let mut fields: Vec<(String, JsonValue)> = Vec::new();
    fields.push((String::from_str("status"), JsonValue::Bool(true)));
    fields.push((String::from_str("timestamp"), JsonValue::Uint(now_secs)));
    Response { result: Some(JsonValue::Object(fields)), ..response }
}

/// The phone-number validator: reads `params.number`, renders it when
/// it is a recognized number with an allowed area code, and reports
/// null (not an error) when it is merely unrecognized.
pub fn validate_handler(request: &Request, response: Response) -> (r: Response)
    requires
        response.result is None,
        response.error is None,
    ensures
        r.jsonrpc == response.jsonrpc,
        r.id == response.id,
        validated_outcome(request.params, r),
{
    let params = match &request.params {
        None => {
            return Response {
                error: Some(Errors::InvalidParams.to_error(None)),
                ..response
            };
        },
        Some(p) => p,
    };
    let number = match params.get("number") {
        None => {
            let mut detail: Vec<(String, JsonValue)> = Vec::new();
            detail.push(
                (String::from_str("detail"), JsonValue::Str(String::from_str("number is None"))),
            );
            return Response {
                error: Some(Errors::InvalidParams.to_error(Some(JsonValue::Object(detail)))),
                ..response
            };
        },
        Some(v) => v,
    };
    let raw = match number {
        JsonValue::Str(s) => s.clone(),
        _ => {
            return Response {
                error: Some(Errors::InvalidParams.to_error(None)),
                ..response
            };
        },
    };
    let formatted = PhoneParser::new(raw).parse();
    let rendered = match formatted {
        Some(f) => JsonValue::Str(f),
        None => JsonValue::Null,
    };
    let mut fields: Vec<(String, JsonValue)> = Vec::new();
    fields.push((String::from_str("number"), rendered));
    Response { result: Some(JsonValue::Object(fields)), ..response }
}

} // verus!

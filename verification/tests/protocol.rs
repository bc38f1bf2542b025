use json_rpc_backend::dispatch::{MethodKind, Registry, process_request};
use json_rpc_backend::handlers::invalid_request;
use json_rpc_backend::json::JsonValue;
use json_rpc_backend::rpc::{enforce_exclusivity, Error, Errors, Request, Response};

fn request(jsonrpc: &str, id: JsonValue, method: &str, params: Option<JsonValue>) -> Request {
    Request { jsonrpc: String::from(jsonrpc), id, method: String::from(method), params }
}

#[test]
fn valid_single_request_echoes_id_and_sets_exactly_one_outcome() {
    let reg = Registry::standard();
    let req = request("2.0", JsonValue::Uint(7), "healthcheck", None);
    let resp = process_request(&req, &reg, 42);
    assert_eq!(resp.id, JsonValue::Uint(7));
    assert!(resp.result.is_some());
    assert!(resp.error.is_none());
    match resp.result.unwrap() {
        JsonValue::Object(fields) => {
            assert_eq!(fields.len(), 2);
            assert_eq!(fields[0].0, "status");
            assert_eq!(fields[0].1, JsonValue::Bool(true));
            assert_eq!(fields[1].0, "timestamp");
            assert_eq!(fields[1].1, JsonValue::Uint(42));
        },
        other => panic!("expected an object, got {:?}", other),
    }
}

#[test]
fn string_id_is_echoed() {
    let reg = Registry::standard();
    let req = request("2.0", JsonValue::Str(String::from("abc")), "healthcheck", None);
    let resp = process_request(&req, &reg, 0);
    assert_eq!(resp.id, JsonValue::Str(String::from("abc")));
    assert!(resp.error.is_none());
}

#[test]
fn every_number_shape_is_a_valid_id() {
    let reg = Registry::standard();
    let ids = [
        JsonValue::Int(-5),
        JsonValue::Uint(5),
        JsonValue::Float(2.5f64.to_bits()),
        JsonValue::Null,
    ];
    for id in ids {
        let expected = match &id {
            JsonValue::Int(i) => JsonValue::Int(*i),
            JsonValue::Uint(u) => JsonValue::Uint(*u),
            JsonValue::Float(bits) => JsonValue::Float(*bits),
            _ => JsonValue::Null,
        };
        let req = request("2.0", id, "healthcheck", None);
        let resp = process_request(&req, &reg, 1);
        assert_eq!(resp.id, expected);
        assert!(resp.error.is_none());
    }
}

#[test]
fn object_field_lookup_is_first_match() {
    let object = JsonValue::Object(vec![
        (String::from("a"), JsonValue::Uint(1)),
        (String::from("b"), JsonValue::Uint(2)),
        (String::from("a"), JsonValue::Uint(3)),
    ]);
    assert_eq!(object.get("a"), Some(&JsonValue::Uint(1)));
    assert_eq!(object.get("b"), Some(&JsonValue::Uint(2)));
    assert_eq!(object.get("c"), None);
    assert_eq!(JsonValue::Uint(9).get("a"), None);
    assert_eq!(JsonValue::Null.get("a"), None);
}

#[test]
fn wrong_version_gives_invalid_request() {
    let reg = Registry::standard();
    let req = request("1.0", JsonValue::Uint(1), "healthcheck", None);
    let resp = process_request(&req, &reg, 0);
    assert_eq!(resp.id, JsonValue::Uint(1));
    assert!(resp.result.is_none());
    let err = resp.error.expect("an error is owed");
    assert_eq!(err.code, -32600);
    assert_eq!(err.message, "Invalid Request");

    let req = request("2.1", JsonValue::Null, "healthcheck", None);
    let resp = process_request(&req, &reg, 0);
    assert_eq!(resp.error.unwrap().code, -32600);
}

#[test]
fn bad_id_is_answered_under_null_id() {
    let reg = Registry::standard();
    let req = request("2.0", JsonValue::Bool(true), "healthcheck", None);
    let resp = process_request(&req, &reg, 0);
    assert_eq!(resp.id, JsonValue::Null);
    assert!(resp.result.is_none());
    assert_eq!(resp.error.unwrap().code, -32600);

    let req = request("2.0", JsonValue::Array(vec![JsonValue::Uint(1)]), "healthcheck", None);
    let resp = process_request(&req, &reg, 0);
    assert_eq!(resp.id, JsonValue::Null);
    assert_eq!(resp.error.unwrap().code, -32600);

    let req = request("2.0", JsonValue::Object(vec![]), "healthcheck", None);
    let resp = process_request(&req, &reg, 0);
    assert_eq!(resp.id, JsonValue::Null);
    assert_eq!(resp.error.unwrap().code, -32600);
}

#[test]
fn unregistered_method_gives_method_not_found() {
    let reg = Registry::standard();
    let req = request("2.0", JsonValue::Uint(3), "nope", None);
    let resp = process_request(&req, &reg, 0);
    assert_eq!(resp.id, JsonValue::Uint(3));
    assert!(resp.result.is_none());
    let err = resp.error.expect("an error is owed");
    assert_eq!(err.code, -32601);
    assert_eq!(err.message, "Method not found");
}

#[test]
fn empty_method_gives_method_not_found() {
    let reg = Registry::standard();
    let req = request("2.0", JsonValue::Uint(4), "", None);
    let resp = process_request(&req, &reg, 0);
    assert_eq!(resp.error.unwrap().code, -32601);
}

#[test]
fn handler_setting_both_result_and_error_is_coerced() {
    let bad = Response::new(
        JsonValue::Uint(9),
        Some(JsonValue::Bool(true)),
        Some(Error::new(Errors::ServerError, None)),
    );
    let fixed = enforce_exclusivity(bad);
    assert_eq!(fixed.id, JsonValue::Uint(9));
    assert!(fixed.result.is_none());
    let err = fixed.error.expect("an error is owed");
    assert_eq!(err.code, -32600);
    assert_eq!(err.message, "Invalid Request");
}

#[test]
fn handler_setting_neither_result_nor_error_is_coerced() {
    let bad = Response::new(JsonValue::Null, None, None);
    let fixed = enforce_exclusivity(bad);
    assert!(fixed.result.is_none());
    assert_eq!(fixed.error.unwrap().code, -32600);
}

#[test]
fn well_formed_response_passes_the_safety_net_unchanged() {
    let good = Response::new(JsonValue::Uint(1), Some(JsonValue::Null), None);
    let kept = enforce_exclusivity(good);
    assert_eq!(kept.id, JsonValue::Uint(1));
    assert_eq!(kept.result, Some(JsonValue::Null));
    assert!(kept.error.is_none());
}

#[test]
fn error_codes_messages_and_statuses() {
    let table = [
        (Errors::ParseError, -32700, "Parse error", 500),
        (Errors::InvalidRequest, -32600, "Invalid Request", 400),
        (Errors::MethodNotFound, -32601, "Method not found", 404),
        (Errors::InvalidParams, -32602, "Invalid params", 500),
        (Errors::InternalError, -32603, "Internal error", 500),
        (Errors::ServerError, -32000, "Server error", 500),
    ];
    for (kind, code, message, status) in table {
        assert_eq!(kind.code(), code);
        assert_eq!(kind.message(), message);
        assert_eq!(kind.status_code(), status);
        let err = kind.to_error(None);
        assert_eq!(err.code, code);
        assert_eq!(err.message, message);
        assert!(err.data.is_none());
    }
}

#[test]
fn response_status_follows_its_error_code() {
    let ok = Response::new(JsonValue::Uint(1), Some(JsonValue::Null), None);
    assert_eq!(ok.status_code(), 200);
    let not_found = Response::new(
        JsonValue::Uint(1),
        None,
        Some(Errors::MethodNotFound.to_error(None)),
    );
    assert_eq!(not_found.status_code(), 404);
    let unmapped = Response::new(
        JsonValue::Uint(1),
        None,
        Some(Error { code: -1, message: String::from("odd"), data: None }),
    );
    assert_eq!(unmapped.status_code(), 500);
}

#[test]
fn invalid_request_helper_carries_a_null_id() {
    let resp = invalid_request();
    assert_eq!(resp.id, JsonValue::Null);
    assert!(resp.result.is_none());
    assert_eq!(resp.error.unwrap().code, -32600);
}

#[test]
fn registry_resolves_its_standard_bindings() {
    let reg = Registry::standard();
    assert_eq!(reg.lookup(&String::from("healthcheck")), Some(MethodKind::Healthcheck));
    assert_eq!(reg.lookup(&String::from("validate")), Some(MethodKind::ValidatePhone));
    assert_eq!(reg.lookup(&String::from("")), None);
    assert_eq!(reg.lookup(&String::from("health")), None);
}

#[test]
fn registry_registration_is_first_match() {
    let mut reg = Registry::new();
    assert_eq!(reg.lookup(&String::from("probe")), None);
    reg.register(String::from("probe"), MethodKind::Healthcheck);
    reg.register(String::from("probe"), MethodKind::ValidatePhone);
    assert_eq!(reg.lookup(&String::from("probe")), Some(MethodKind::Healthcheck));
}

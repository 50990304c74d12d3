//! Tests of the JSON value type and its renderings.

use mcp_logseq::json::Json;
use mcp_logseq::protocol::{serialize_response, ResponseBuilder};

fn rstr(s: &str) -> Json {
    Json::Str(s.to_string())
}

fn rnum(s: &str) -> Json {
    Json::Num(s.to_string())
}

fn robj(pairs: Vec<(&str, Json)>) -> Json {
    Json::Obj(pairs.into_iter().map(|(k, v)| (k.to_string(), v)).collect())
}

#[test]
fn text_of_scalars() {
    assert_eq!(Json::Null.to_text(), "null".to_string());
    assert_eq!(Json::Bool(true).to_text(), "true".to_string());
    assert_eq!(Json::Bool(false).to_text(), "false".to_string());
    assert_eq!(rnum("-1.5e3").to_text(), "-1.5e3".to_string());
    assert_eq!(rstr("hi").to_text(), "\"hi\"".to_string());
}

#[test]
fn text_of_nested_values() {
    let v = robj(vec![
        ("a", Json::Arr(vec![rnum("1"), rnum("2")])),
        ("b", robj(vec![("c", Json::Null)])),
    ]);
    assert_eq!(v.to_text(), "{\"a\":[1,2],\"b\":{\"c\":null}}".to_string());
    assert_eq!(Json::Arr(vec![]).to_text(), "[]".to_string());
    assert_eq!(robj(vec![]).to_text(), "{}".to_string());
}

#[test]
fn text_escapes_strings() {
    assert_eq!(
        rstr("a\"b\\c\nd\te\r").to_text(),
        "\"a\\\"b\\\\c\\nd\\te\\r\"".to_string()
    );
    assert_eq!(rstr("\u{8}\u{c}").to_text(), "\"\\b\\f\"".to_string());
    assert_eq!(rstr("\u{1}\u{1f}").to_text(), "\"\\u0001\\u001f\"".to_string());
    assert_eq!(rstr("plain / text").to_text(), "\"plain / text\"".to_string());
}

#[test]
fn escaped_keys_in_objects() {
    let v = robj(vec![("a\"b", rnum("1"))]);
    assert_eq!(v.to_text(), "{\"a\\\"b\":1}".to_string());
}

#[test]
fn pretty_of_scalars_and_empties() {
    assert_eq!(Json::Null.to_pretty(), "null".to_string());
    assert_eq!(Json::Arr(vec![]).to_pretty(), "[]".to_string());
    assert_eq!(robj(vec![]).to_pretty(), "{}".to_string());
}

#[test]
fn pretty_of_nested_values() {
    let v = robj(vec![
        ("page", robj(vec![("name", rstr("X"))])),
        ("blocks", Json::Arr(vec![])),
    ]);
    assert_eq!(
        v.to_pretty(),
        "{\n  \"page\": {\n    \"name\": \"X\"\n  },\n  \"blocks\": []\n}".to_string()
    );
    let arr = Json::Arr(vec![rnum("1"), Json::Arr(vec![rnum("2")])]);
    assert_eq!(arr.to_pretty(), "[\n  1,\n  [\n    2\n  ]\n]".to_string());
}

#[test]
fn serialized_error_response_is_one_exact_line() {
    let resp = ResponseBuilder::error(rnum("1"), -32601, "Method 'x' not found".to_string());
    assert_eq!(
        serialize_response(&resp),
        "{\"jsonrpc\":\"2.0\",\"id\":1,\"error\":{\"code\":-32601,\"message\":\"Method 'x' not found\"}}"
            .to_string()
    );
}

#[test]
fn serialized_success_response_is_one_exact_line() {
    let resp = ResponseBuilder::success(rstr("abc"), robj(vec![]));
    assert_eq!(
        serialize_response(&resp),
        "{\"jsonrpc\":\"2.0\",\"id\":\"abc\",\"result\":{}}".to_string()
    );
}

#[test]
fn serialized_response_never_spans_lines() {
    let resp = ResponseBuilder::success(
        rnum("1"),
        robj(vec![("text", rstr("two\nlines"))]),
    );
    let line = serialize_response(&resp);
    assert!(!line.contains('\n'));
}

#[test]
fn error_with_data_carries_data() {
    let resp = ResponseBuilder::error_with_data(
        rnum("1"),
        -32603,
        "bad".to_string(),
        rstr("detail"),
    );
    assert_eq!(
        serialize_response(&resp),
        "{\"jsonrpc\":\"2.0\",\"id\":1,\"error\":{\"code\":-32603,\"message\":\"bad\",\"data\":\"detail\"}}"
            .to_string()
    );
}

#[test]
fn parse_error_response_uses_placeholder_id() {
    let resp = ResponseBuilder::parse_error();
    assert_eq!(
        serialize_response(&resp),
        "{\"jsonrpc\":\"2.0\",\"id\":0,\"error\":{\"code\":-32700,\"message\":\"Parse error\"}}"
            .to_string()
    );
}

#[test]
fn notification_ack_is_the_skip_marker() {
    let marker = ResponseBuilder::notification_ack();
    assert_eq!(marker.to_text(), "{\"_skip_response\":true}".to_string());
}

#[test]
fn duplicate_preserves_values() {
    let v = robj(vec![
        ("a", Json::Arr(vec![rnum("1"), rstr("x")])),
        ("b", Json::Bool(false)),
    ]);
    assert_eq!(v.duplicate(), v);
}

#[test]
fn get_returns_first_binding() {
    let v = robj(vec![("k", rnum("1")), ("k", rnum("2"))]);
    assert_eq!(v.get("k"), Some(&rnum("1")));
    assert_eq!(v.get("missing"), None);
    assert_eq!(rnum("1").get("k"), None);
}

#[test]
fn get_str_and_get_bool_check_types() {
    let v = robj(vec![("s", rstr("x")), ("b", Json::Bool(true)), ("n", rnum("1"))]);
    assert_eq!(v.get_str("s"), Some(&"x".to_string()));
    assert_eq!(v.get_str("b"), None);
    assert_eq!(v.get_bool("b"), Some(true));
    assert_eq!(v.get_bool("n"), None);
}

#[test]
fn extreme_error_codes_render_exactly() {
    let resp = ResponseBuilder::error(rnum("1"), i32::MIN, "m".to_string());
    assert_eq!(
        serialize_response(&resp),
        "{\"jsonrpc\":\"2.0\",\"id\":1,\"error\":{\"code\":-2147483648,\"message\":\"m\"}}"
            .to_string()
    );
    let resp2 = ResponseBuilder::error(rnum("1"), i32::MAX, "m".to_string());
    assert_eq!(
        serialize_response(&resp2),
        "{\"jsonrpc\":\"2.0\",\"id\":1,\"error\":{\"code\":2147483647,\"message\":\"m\"}}"
            .to_string()
    );
}

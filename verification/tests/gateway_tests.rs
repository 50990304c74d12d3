//! Tests of the backend gateway, the registry and the protocol types.

use mcp_logseq::config::Config;
use mcp_logseq::error::McpError;
use mcp_logseq::json::Json;
use mcp_logseq::logseq_client::{classify_api_response, LogseqClient};
use mcp_logseq::protocol::{ensure_valid_id, is_notification, parse_request, HandlerResponse, ResponseBuilder};
use mcp_logseq::tools::builder::{simple_tool, single_string_param_tool, ToolBuilder};
use mcp_logseq::tools::get_all_tools;

fn gstr(s: &str) -> Json {
    Json::Str(s.to_string())
}

fn gnum(s: &str) -> Json {
    Json::Num(s.to_string())
}

fn gobj(pairs: Vec<(&str, Json)>) -> Json {
    Json::Obj(pairs.into_iter().map(|(k, v)| (k.to_string(), v)).collect())
}

fn client() -> LogseqClient {
    let config = Config::resolve(Some("token-1".to_string()), None).expect("token given");
    LogseqClient::new(config).expect("client")
}

#[test]
fn config_requires_the_token() {
    let err = Config::resolve(None, None).expect_err("token missing");
    assert_eq!(err, McpError::Config("LOGSEQ_API_TOKEN not set".to_string()));
    assert_eq!(
        err.message(),
        "Configuration error: LOGSEQ_API_TOKEN not set".to_string()
    );
}

#[test]
fn config_defaults_the_url() {
    let c = Config::resolve(Some("t".to_string()), None).expect("ok");
    assert_eq!(c.logseq_api_url, "http://localhost:12315".to_string());
    let c2 = Config::resolve(Some("t".to_string()), Some("http://h:1".to_string())).expect("ok");
    assert_eq!(c2.logseq_api_url, "http://h:1".to_string());
}

#[test]
fn auth_header_and_endpoint() {
    let c = client();
    assert_eq!(c.auth_header(), "Bearer token-1".to_string());
    assert_eq!(c.api_endpoint(), "http://localhost:12315/api".to_string());
}

#[test]
fn query_calls_have_the_documented_shapes() {
    let c = client();
    let call = c.get_current_graph();
    assert_eq!(call.method, "logseq.App.getCurrentGraph".to_string());
    assert!(call.args.is_empty());
    assert_eq!(c.get_all_pages().method, "logseq.Editor.getAllPages".to_string());
    let page = c.get_page("Notes");
    assert_eq!(page.method, "logseq.Editor.getPage".to_string());
    assert_eq!(page.args, vec![gstr("Notes")]);
    let tree = c.get_page_blocks_tree("Notes");
    assert_eq!(tree.method, "logseq.Editor.getPageBlocksTree".to_string());
    let block = c.get_block("u-1");
    assert_eq!(block.method, "logseq.Editor.getBlock".to_string());
    assert_eq!(block.args, vec![gstr("u-1")]);
    let search = c.search("todo");
    assert_eq!(search.method, "logseq.App.search".to_string());
    assert_eq!(search.args, vec![gstr("todo")]);
}

#[test]
fn mutation_calls_have_the_documented_shapes() {
    let c = client();
    let empty = c.create_page("P", None);
    assert_eq!(empty.method, "logseq.Editor.createPage".to_string());
    assert_eq!(empty.args, vec![gstr("P")]);
    let full = c.create_page("P", Some("body"));
    assert_eq!(
        full.args,
        vec![
            gstr("P"),
            gobj(vec![("content", gstr("body")), ("format", gstr("markdown"))]),
        ]
    );
    let ins = c.insert_block("p-1", "text", true);
    assert_eq!(ins.method, "logseq.Editor.insertBlock".to_string());
    assert_eq!(
        ins.args,
        vec![gstr("p-1"), gstr("text"), gobj(vec![("sibling", Json::Bool(true))])]
    );
    let upd = c.update_block("u-1", "new");
    assert_eq!(upd.method, "logseq.Editor.updateBlock".to_string());
    assert_eq!(upd.args, vec![gstr("u-1"), gstr("new")]);
    let del = c.delete_block("u-2");
    assert_eq!(del.method, "logseq.Editor.removeBlock".to_string());
    assert_eq!(del.args, vec![gstr("u-2")]);
    let app = c.append_block_in_page("P", "tail");
    assert_eq!(app.method, "logseq.Editor.appendBlockInPage".to_string());
    assert_eq!(app.args, vec![gstr("P"), gstr("tail")]);
}

#[test]
fn api_request_body_renders_as_wire_json() {
    let c = client();
    let call = c.update_block("u-1", "new");
    assert_eq!(
        call.to_json().to_text(),
        "{\"method\":\"logseq.Editor.updateBlock\",\"args\":[\"u-1\",\"new\"]}".to_string()
    );
}

#[test]
fn classify_accepts_plain_bodies() {
    let body = gobj(vec![("name", gstr("X"))]);
    assert_eq!(classify_api_response(&body), Ok(body));
}

#[test]
fn classify_rejects_error_bodies() {
    let body = gobj(vec![("error", gstr("denied"))]);
    assert_eq!(
        classify_api_response(&body),
        Err("Logseq API error: \"denied\"".to_string())
    );
}

#[test]
fn registry_names_are_unique_and_requirements_declared() {
    let tools = get_all_tools();
    assert_eq!(tools.len(), 10);
    for (i, a) in tools.iter().enumerate() {
        for b in tools.iter().skip(i + 1) {
            assert_ne!(a.name, b.name);
        }
        if let Some(required) = &a.input_schema.required {
            let properties = a.input_schema.properties.as_ref().expect("declared");
            for name in required {
                assert!(
                    properties.iter().any(|(k, _)| k == name),
                    "{} requires undeclared {}",
                    a.name,
                    name
                );
            }
        }
        assert_eq!(a.input_schema.schema_type, "object".to_string());
    }
}

#[test]
fn builder_collects_parameters_in_order() {
    let tool = ToolBuilder::new("sample")
        .description("a sample")
        .string_param("first", "the first", true)
        .bool_param("flag", "a flag", Some(true), false)
        .int_param("count", "a count", false)
        .build();
    assert_eq!(tool.name, "sample".to_string());
    assert_eq!(tool.description, Some("a sample".to_string()));
    let props = tool.input_schema.properties.expect("has params");
    assert_eq!(props.len(), 3);
    assert_eq!(props[0].0, "first".to_string());
    assert_eq!(
        props[1].1,
        gobj(vec![
            ("type", gstr("boolean")),
            ("description", gstr("a flag")),
            ("default", Json::Bool(true)),
        ])
    );
    assert_eq!(
        props[2].1,
        gobj(vec![("type", gstr("integer")), ("description", gstr("a count"))])
    );
    assert_eq!(tool.input_schema.required, Some(vec!["first".to_string()]));
}

#[test]
fn simple_tools_leave_schema_parts_out() {
    let t = simple_tool("bare", "no params");
    assert!(t.input_schema.properties.is_none());
    assert!(t.input_schema.required.is_none());
    let u = single_string_param_tool("one", "one param", "p", "the p");
    assert_eq!(u.input_schema.required, Some(vec!["p".to_string()]));
}

#[test]
fn parse_request_reads_the_envelope() {
    let v = gobj(vec![
        ("jsonrpc", gstr("2.0")),
        ("method", gstr("ping")),
        ("id", gnum("1")),
    ]);
    let req = parse_request(&v).expect("well-formed");
    assert_eq!(req.method, "ping".to_string());
    assert_eq!(req.id, Some(gnum("1")));
    assert_eq!(req.params, None);
    assert!(!is_notification(&req));
    let bare = gobj(vec![("jsonrpc", gstr("2.0")), ("method", gstr("ping"))]);
    let note = parse_request(&bare).expect("well-formed");
    assert!(is_notification(&note));
    assert!(parse_request(&gobj(vec![("method", gstr("ping"))])).is_err());
    assert!(parse_request(&gnum("3")).is_err());
}

#[test]
fn parse_request_treats_null_id_as_absent() {
    // A null id signifies a notification, exactly like a missing id.
    let v = gobj(vec![
        ("jsonrpc", gstr("2.0")),
        ("method", gstr("initialized")),
        ("id", Json::Null),
        ("params", Json::Null),
    ]);
    let req = parse_request(&v).expect("well-formed");
    assert_eq!(req.id, None);
    assert_eq!(req.params, None);
    assert!(is_notification(&req));
}

#[test]
fn ensure_valid_id_never_yields_null() {
    assert_eq!(ensure_valid_id(None), gnum("0"));
    assert_eq!(ensure_valid_id(Some(Json::Null)), gnum("0"));
    assert_eq!(ensure_valid_id(Some(gstr("a"))), gstr("a"));
    assert_eq!(ensure_valid_id(Some(gnum("0"))), gnum("0"));
}

#[test]
fn handler_response_renders_or_stays_silent() {
    let ok = HandlerResponse::success(gnum("1"), gobj(vec![]));
    assert!(!ok.is_notification_ack());
    assert_eq!(
        ok.to_string(),
        "{\"jsonrpc\":\"2.0\",\"id\":1,\"result\":{}}".to_string()
    );
    let ack = HandlerResponse::notification_ack();
    assert!(ack.is_notification_ack());
    assert_eq!(ack.to_string(), "".to_string());
    let err = HandlerResponse::error(gnum("2"), -32601, "nope".to_string());
    assert_eq!(
        err.to_string(),
        "{\"jsonrpc\":\"2.0\",\"id\":2,\"error\":{\"code\":-32601,\"message\":\"nope\"}}".to_string()
    );
}

#[test]
fn error_constructors_carry_their_class() {
    assert_eq!(
        McpError::logseq_api("x").message(),
        "Logseq API error: x".to_string()
    );
    assert_eq!(
        McpError::protocol("x").message(),
        "Protocol error: x".to_string()
    );
    assert_eq!(
        McpError::tool_execution("x").message(),
        "Tool execution error: x".to_string()
    );
    assert_eq!(
        McpError::invalid_params("x").message(),
        "Invalid parameters: x".to_string()
    );
    assert_eq!(McpError::config("x").message(), "Configuration error: x".to_string());
}

#[test]
fn builder_error_helpers_use_their_codes() {
    let mnf = ResponseBuilder::method_not_found(gnum("1"), "zap");
    assert_eq!(mnf.error.as_ref().expect("error").code, -32601);
    assert_eq!(
        mnf.error.expect("error").message,
        "Method 'zap' not found".to_string()
    );
    let internal = ResponseBuilder::internal_error(gnum("1"), "boom".to_string());
    assert_eq!(internal.error.expect("error").code, -32603);
    let invalid = ResponseBuilder::invalid_params(gnum("1"), "bad".to_string());
    assert_eq!(invalid.error.expect("error").code, -32602);
}

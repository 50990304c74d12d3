//! End-to-end tests of the protocol engine: one parsed request in, a
//! step out, backend replies fed back by hand as a stub backend.

use mcp_logseq::engine::{handle_backend_reply, handle_line, handle_request, Step};
use mcp_logseq::json::Json;
use mcp_logseq::tools::get_all_tools;

fn jstr(s: &str) -> Json {
    Json::Str(s.to_string())
}

fn jnum(s: &str) -> Json {
    Json::Num(s.to_string())
}

fn jobj(pairs: Vec<(&str, Json)>) -> Json {
    Json::Obj(pairs.into_iter().map(|(k, v)| (k.to_string(), v)).collect())
}

fn request(method: &str, id: Option<Json>) -> Json {
    let mut pairs = vec![
        ("jsonrpc".to_string(), jstr("2.0")),
        ("method".to_string(), jstr(method)),
    ];
    if let Some(id) = id {
        pairs.push(("id".to_string(), id));
    }
    Json::Obj(pairs)
}

fn tool_call(name: &str, arguments: Json, id: Json) -> Json {
    jobj(vec![
        ("jsonrpc", jstr("2.0")),
        ("method", jstr("tools/call")),
        ("id", id),
        (
            "params",
            jobj(vec![("name", jstr(name)), ("arguments", arguments)]),
        ),
    ])
}

fn field<'a>(v: &'a Json, key: &str) -> &'a Json {
    v.get(key).expect("missing field")
}

#[test]
fn ping_echoes_numeric_id() {
    match handle_request(&request("ping", Some(jnum("7")))) {
        Step::Reply(resp) => {
            assert_eq!(resp.id, jnum("7"));
            assert_eq!(resp.jsonrpc, "2.0".to_string());
            assert_eq!(resp.result, Some(jobj(vec![])));
            assert!(resp.error.is_none());
        }
        _ => panic!("ping must reply"),
    }
}

#[test]
fn ping_echoes_string_id() {
    match handle_request(&request("ping", Some(jstr("7")))) {
        Step::Reply(resp) => {
            // A string id comes back as the same string, not as a number.
            assert_eq!(resp.id, jstr("7"));
        }
        _ => panic!("ping must reply"),
    }
}

#[test]
fn ping_is_idempotent() {
    let req = request("ping", Some(jnum("3")));
    let first = handle_request(&req);
    let second = handle_request(&req);
    assert_eq!(first, second);
    match first {
        Step::Reply(resp) => assert_eq!(resp.result, Some(jobj(vec![]))),
        _ => panic!("ping must reply"),
    }
}

#[test]
fn zero_id_is_a_valid_correlation_id() {
    match handle_request(&request("ping", Some(jnum("0")))) {
        Step::Reply(resp) => assert_eq!(resp.id, jnum("0")),
        _ => panic!("ping must reply"),
    }
}

#[test]
fn initialized_without_id_is_suppressed() {
    assert_eq!(handle_request(&request("initialized", None)), Step::NoReply);
}

#[test]
fn initialized_with_null_id_is_suppressed() {
    assert_eq!(
        handle_request(&request("initialized", Some(Json::Null))),
        Step::NoReply
    );
}

#[test]
fn initialized_with_id_gets_ack() {
    match handle_request(&request("initialized", Some(jnum("5")))) {
        Step::Reply(resp) => {
            assert_eq!(resp.id, jnum("5"));
            assert_eq!(resp.result, Some(jobj(vec![])));
        }
        _ => panic!("initialized with an id must be acknowledged"),
    }
}

#[test]
fn notifications_initialized_always_replies() {
    match handle_request(&request("notifications/initialized", None)) {
        Step::Reply(resp) => {
            assert_eq!(resp.id, jnum("0"));
            assert_eq!(resp.result, Some(jobj(vec![])));
        }
        _ => panic!("notifications/initialized must always reply"),
    }
}

#[test]
fn unknown_method_reports_method_not_found() {
    match handle_request(&request("foo/bar", Some(jnum("1")))) {
        Step::Reply(resp) => {
            let err = resp.error.expect("must be an error");
            assert_eq!(err.code, -32601);
            assert!(err.message.contains("foo/bar"));
            assert_eq!(err.message, "Method 'foo/bar' not found".to_string());
            assert!(resp.result.is_none());
        }
        _ => panic!("unknown methods must get an error reply"),
    }
}

#[test]
fn initialize_and_tools_list_agree() {
    let init = match handle_request(&request("initialize", Some(jnum("1")))) {
        Step::Reply(resp) => resp.result.expect("initialize must succeed"),
        _ => panic!("initialize must reply"),
    };
    let listed = match handle_request(&request("tools/list", Some(jnum("2")))) {
        Step::Reply(resp) => resp.result.expect("tools/list must succeed"),
        _ => panic!("tools/list must reply"),
    };
    let from_init = field(&init, "tools");
    let from_list = field(&listed, "tools");
    assert_eq!(from_init, from_list);
    let expected = vec![
        "list_graphs",
        "list_pages",
        "get_page",
        "get_block",
        "search",
        "create_page",
        "update_block",
        "insert_block",
        "delete_block",
        "append_to_page",
    ];
    match from_init {
        Json::Arr(tools) => {
            assert_eq!(tools.len(), 10);
            for (tool, want) in tools.iter().zip(expected.iter()) {
                assert_eq!(field(tool, "name"), &jstr(want));
                let schema = field(tool, "inputSchema");
                assert_eq!(field(schema, "type"), &jstr("object"));
            }
        }
        _ => panic!("tools must be an array"),
    }
    assert_eq!(field(&init, "protocolVersion"), &jstr("2024-11-05"));
}

#[test]
fn get_page_scenario_merges_page_and_blocks() {
    let req = tool_call("get_page", jobj(vec![("page_name", jstr("X"))]), jnum("9"));
    let (call, pending) = match handle_request(&req) {
        Step::Backend(call, pending) => (call, pending),
        _ => panic!("get_page must call the backend"),
    };
    assert_eq!(call.method, "logseq.Editor.getPage".to_string());
    assert_eq!(call.args, vec![jstr("X")]);
    let (call2, pending2) = match handle_backend_reply(pending, Ok(jobj(vec![("name", jstr("X"))])))
    {
        Step::Backend(call, pending) => (call, pending),
        _ => panic!("get_page must fetch the block tree next"),
    };
    assert_eq!(call2.method, "logseq.Editor.getPageBlocksTree".to_string());
    assert_eq!(call2.args, vec![jstr("X")]);
    match handle_backend_reply(pending2, Ok(Json::Arr(vec![]))) {
        Step::Reply(resp) => {
            assert_eq!(resp.id, jnum("9"));
            let result = resp.result.expect("must succeed");
            let content = field(&result, "content");
            let entry = match content {
                Json::Arr(items) => &items[0],
                _ => panic!("content must be an array"),
            };
            assert_eq!(field(entry, "type"), &jstr("text"));
            let text = match field(entry, "text") {
                Json::Str(s) => s.clone(),
                _ => panic!("text must be a string"),
            };
            assert_eq!(
                text,
                "{\n  \"page\": {\n    \"name\": \"X\"\n  },\n  \"blocks\": []\n}".to_string()
            );
        }
        _ => panic!("the second reply must complete the call"),
    }
}

#[test]
fn create_page_without_content_omits_content_arg() {
    let req = tool_call("create_page", jobj(vec![("page_name", jstr("P"))]), jnum("1"));
    match handle_request(&req) {
        Step::Backend(call, _) => {
            assert_eq!(call.method, "logseq.Editor.createPage".to_string());
            assert_eq!(call.args, vec![jstr("P")]);
        }
        _ => panic!("create_page must call the backend"),
    }
}

#[test]
fn create_page_with_content_attaches_markdown_options() {
    let req = tool_call(
        "create_page",
        jobj(vec![("page_name", jstr("P")), ("content", jstr("hello"))]),
        jnum("1"),
    );
    match handle_request(&req) {
        Step::Backend(call, _) => {
            assert_eq!(
                call.args,
                vec![
                    jstr("P"),
                    jobj(vec![("content", jstr("hello")), ("format", jstr("markdown"))]),
                ]
            );
        }
        _ => panic!("create_page must call the backend"),
    }
}

#[test]
fn missing_content_param_reports_error() {
    let req = tool_call("update_block", jobj(vec![("uuid", jstr("u-1"))]), jnum("4"));
    match handle_request(&req) {
        Step::Reply(resp) => {
            let err = resp.error.expect("must be an error");
            assert_eq!(err.code, -32603);
            assert!(err.message.contains("content"));
            assert_eq!(
                err.message,
                "Tool execution failed: content parameter is required".to_string()
            );
        }
        _ => panic!("a missing required parameter must fail the call"),
    }
}

#[test]
fn unknown_tool_fails_as_execution_error() {
    let req = tool_call("no_such_tool", jobj(vec![]), jnum("2"));
    match handle_request(&req) {
        Step::Reply(resp) => {
            let err = resp.error.expect("must be an error");
            assert_eq!(err.code, -32603);
            assert_eq!(
                err.message,
                "Tool execution failed: Unknown tool: no_such_tool".to_string()
            );
        }
        _ => panic!("an unknown tool must fail the call"),
    }
}

#[test]
fn missing_params_fails_as_execution_error() {
    let req = request("tools/call", Some(jnum("2")));
    match handle_request(&req) {
        Step::Reply(resp) => {
            let err = resp.error.expect("must be an error");
            assert_eq!(err.code, -32603);
            assert_eq!(err.message, "Tool execution failed: Missing params".to_string());
        }
        _ => panic!("a call without params must fail"),
    }
}

#[test]
fn malformed_line_produces_no_output_and_loop_continues() {
    // The binary parses each line with serde_json; a malformed line
    // parses to nothing and the engine suppresses any output for it.
    let parsed: Option<serde_json::Value> = serde_json::from_str("{not json").ok();
    assert!(parsed.is_none());
    assert_eq!(handle_line(None), Step::NoReply);
    // The next, valid line is handled as usual.
    match handle_line(Some(request("ping", Some(jnum("1"))))) {
        Step::Reply(resp) => assert_eq!(resp.id, jnum("1")),
        _ => panic!("the loop must continue after a malformed line"),
    }
}

#[test]
fn backend_error_body_fails_the_call() {
    let req = tool_call("get_block", jobj(vec![("uuid", jstr("b-1"))]), jnum("6"));
    let pending = match handle_request(&req) {
        Step::Backend(_, pending) => pending,
        _ => panic!("get_block must call the backend"),
    };
    let body = jobj(vec![("error", jstr("no such block"))]);
    match handle_backend_reply(pending, Ok(body)) {
        Step::Reply(resp) => {
            let err = resp.error.expect("must be an error");
            assert_eq!(err.code, -32603);
            assert_eq!(
                err.message,
                "Tool execution failed: Logseq API error: \"no such block\"".to_string()
            );
        }
        _ => panic!("an error body must fail the call"),
    }
}

#[test]
fn transport_failure_fails_the_call() {
    let req = tool_call("list_pages", jobj(vec![]), jnum("8"));
    let pending = match handle_request(&req) {
        Step::Backend(_, pending) => pending,
        _ => panic!("list_pages must call the backend"),
    };
    match handle_backend_reply(pending, Err("connection refused".to_string())) {
        Step::Reply(resp) => {
            let err = resp.error.expect("must be an error");
            assert_eq!(err.code, -32603);
            assert_eq!(
                err.message,
                "Tool execution failed: connection refused".to_string()
            );
        }
        _ => panic!("a transport failure must fail the call"),
    }
}

#[test]
fn every_advertised_tool_round_trips() {
    for tool in get_all_tools() {
        let mut args: Vec<(String, Json)> = Vec::new();
        if let Some(required) = &tool.input_schema.required {
            for param in required {
                args.push((param.clone(), jstr("value")));
            }
        }
        let req = tool_call(tool.name.as_str(), Json::Obj(args), jnum("11"));
        let mut step = handle_request(&req);
        // Feed stub replies until the call completes (at most two).
        for _ in 0..2 {
            step = match step {
                Step::Backend(_, pending) => {
                    handle_backend_reply(pending, Ok(jobj(vec![("ok", Json::Bool(true))])))
                }
                done => done,
            };
        }
        match step {
            Step::Reply(resp) => {
                assert_eq!(resp.id, jnum("11"), "tool {}", tool.name);
                assert!(resp.result.is_some(), "tool {}", tool.name);
                assert!(resp.error.is_none(), "tool {}", tool.name);
            }
            _ => panic!("tool {} did not complete", tool.name),
        }
    }
}

#[test]
fn insert_block_defaults_to_child_insertion() {
    let req = tool_call(
        "insert_block",
        jobj(vec![("parent_uuid", jstr("p")), ("content", jstr("c"))]),
        jnum("1"),
    );
    match handle_request(&req) {
        Step::Backend(call, _) => {
            assert_eq!(
                call.args,
                vec![
                    jstr("p"),
                    jstr("c"),
                    jobj(vec![("sibling", Json::Bool(false))]),
                ]
            );
        }
        _ => panic!("insert_block must call the backend"),
    }
}

#[test]
fn non_string_method_is_method_not_found() {
    let req = jobj(vec![
        ("jsonrpc", jstr("2.0")),
        ("method", jnum("42")),
        ("id", jnum("1")),
    ]);
    match handle_request(&req) {
        Step::Reply(resp) => {
            let err = resp.error.expect("must be an error");
            assert_eq!(err.code, -32601);
            assert_eq!(err.message, "Method '' not found".to_string());
        }
        _ => panic!("a non-string method must get an error reply"),
    }
}

//! The protocol engine: one step of the server per parsed input line.
//!
//! Handling a request either produces no output (a notification), a
//! response to write, or a backend call to perform.  The caller performs
//! the call and feeds the reply back through `handle_backend_reply`,
//! which may ask for one more call (only `get_page` does) before the
//! response is ready.  `spec_handle_request` and
//! `spec_handle_backend_reply` define each step exactly.

use vstd::prelude::*;

use crate::json::{Json, Val, val_get, val_get_str, field_vals_of, lemma_field_vals_of_index};
use crate::logseq_client::{call_get_page_blocks_tree, request_get_page_blocks_tree, spec_classify, classify_api_response};
use crate::models::{CallV, LogseqApiRequest};
use crate::protocol::{
    ensure_valid_id, opt_val, resp_error, resp_success, spec_valid_id, JsonRpcResponse, RespV,
    ResponseBuilder, INTERNAL_ERROR, METHOD_NOT_FOUND,
};
use crate::render::pretty_of;
use crate::tools::{
    dispatch_tool, get_all_tools, spec_dispatch, spec_tools, tools_json, tools_to_json,
    wrap_result, PlanRest, PlanRestV, WrapShape,
};

verus! {

/// What a pending backend reply will be used for.
#[derive(Debug, PartialEq)]
pub enum PendingKind {
    /// Wrap the reply as this tool's response value.
    Wrap(WrapShape),
    /// The reply is a page's metadata; fetch the page's block tree next.
    FetchBlocksTree { page_name: String },
    /// The reply is the block tree; merge it with the saved page metadata.
    MergePage { page: Json },
}

/// Model of a pending reply's use.
#[verifier::ext_equal]
pub enum PendingKindV {
    Wrap(WrapShape),
    FetchBlocksTree(Seq<char>),
    MergePage(Val),
}

impl View for PendingKind {
    type V = PendingKindV;

    open spec fn view(&self) -> PendingKindV {
        match self {
            PendingKind::Wrap(s) => PendingKindV::Wrap(*s),
            PendingKind::FetchBlocksTree { page_name } => PendingKindV::FetchBlocksTree(
                page_name@,
            ),
            PendingKind::MergePage { page } => PendingKindV::MergePage(page@),
        }
    }
}

/// A backend call in flight: the id to respond under and what to do with
/// the reply.
#[derive(Debug, PartialEq)]
pub struct PendingCall {
    pub id: Json,
    pub kind: PendingKind,
}

/// Model of a pending call.
#[verifier::ext_equal]
pub struct PendingV {
    pub id: Val,
    pub kind: PendingKindV,
}

impl View for PendingCall {
    type V = PendingV;

    open spec fn view(&self) -> PendingV {
        PendingV { id: self.id@, kind: self.kind@ }
    }
}

/// One step of the engine: suppress, respond, or call the backend.
#[derive(Debug, PartialEq)]
pub enum Step {
    NoReply,
    Reply(JsonRpcResponse),
    Backend(LogseqApiRequest, PendingCall),
}

/// Model of a step.
#[verifier::ext_equal]
pub enum StepV {
    NoReply,
    Reply(RespV),
    Backend(CallV, PendingV),
}

impl View for Step {
    type V = StepV;

    open spec fn view(&self) -> StepV {
        match self {
            Step::NoReply => StepV::NoReply,
            Step::Reply(r) => StepV::Reply(r@),
            Step::Backend(c, p) => StepV::Backend(c@, p@),
        }
    }
}

/// The method a request names; anything but a string field is treated as
/// the empty method name.
pub open spec fn req_method(req: Val) -> Seq<char> {
    match val_get_str(req, "method"@) {
        Some(m) => m,
        None => Seq::empty(),
    }
}

/// The id every response to this request carries.
pub open spec fn effective_id(req: Val) -> Val {
    spec_valid_id(val_get(req, "id"@))
}

/// Whether the request is a notification: its id is absent or `null`.
pub open spec fn req_is_notification(req: Val) -> bool {
    match val_get(req, "id"@) {
        None => true,
        Some(v) => v is Null,
    }
}

/// The `initialize` result: protocol version, capabilities, server
/// identity and the full tool list.
pub open spec fn initialize_result() -> Val {
    Val::Obj(
        seq![
            ("protocolVersion"@, Val::Str("2024-11-05"@)),
            (
                "capabilities"@,
                Val::Obj(
                    seq![
                        ("tools"@, Val::Obj(Seq::empty())),
                        ("logseq"@, Val::Bool(true)),
                    ],
                ),
            ),
            (
                "serverInfo"@,
                Val::Obj(
                    seq![
                        ("name"@, Val::Str("mcp-logseq-rust"@)),
                        ("version"@, Val::Str("1.0.0"@)),
                    ],
                ),
            ),
            ("tools"@, Val::Arr(tools_json(spec_tools()))),
        ],
    )
}

/// The `tools/list` result: the same tool list, alone.
pub open spec fn tools_list_result() -> Val {
    Val::Obj(seq![("tools"@, Val::Arr(tools_json(spec_tools())))])
}

/// A tool's JSON result wrapped as a single text content block carrying
/// its pretty-printed text.
pub open spec fn content_result(v: Val) -> Val {
    Val::Obj(
        seq![
            (
                "content"@,
                Val::Arr(
                    seq![
                        Val::Obj(
                            seq![
                                ("type"@, Val::Str("text"@)),
                                ("text"@, Val::Str(pretty_of(v, Seq::empty()))),
                            ],
                        ),
                    ],
                ),
            ),
        ],
    )
}

/// What a tool invocation's remainder waits for.
pub open spec fn pending_of_rest(rest: PlanRestV) -> PendingKindV {
    match rest {
        PlanRestV::Wrap(s) => PendingKindV::Wrap(s),
        PlanRestV::FetchBlocksTree(name) => PendingKindV::FetchBlocksTree(name),
    }
}

/// `tools/call`: missing `params` or `name` and unknown tools fail as
/// tool-execution failures; a valid call becomes its first backend call.
pub open spec fn spec_tool_call_step(id: Val, req: Val) -> StepV {
    match val_get(req, "params"@) {
        None => StepV::Reply(
            resp_error(id, INTERNAL_ERROR as int, "Tool execution failed: Missing params"@),
        ),
        Some(params) => match val_get_str(params, "name"@) {
            None => StepV::Reply(
                resp_error(
                    id,
                    INTERNAL_ERROR as int,
                    "Tool execution failed: Missing tool name"@,
                ),
            ),
            Some(name) => {
                let args = match val_get(params, "arguments"@) {
                    Some(a) => a,
                    None => Val::Obj(Seq::empty()),
                };
                match spec_dispatch(name, args) {
                    Ok(plan) => StepV::Backend(
                        plan.call,
                        PendingV { id, kind: pending_of_rest(plan.rest) },
                    ),
                    Err(m) => StepV::Reply(
                        resp_error(id, INTERNAL_ERROR as int, "Tool execution failed: "@ + m),
                    ),
                }
            },
        },
    }
}

/// The whole dispatch: what one parsed request makes the server do.
pub open spec fn spec_handle_request(req: Val) -> StepV {
    let id = effective_id(req);
    let m = req_method(req);
    if m == "initialize"@ {
        StepV::Reply(resp_success(id, initialize_result()))
    } else if m == "initialized"@ {
        if req_is_notification(req) {
            StepV::NoReply
        } else {
            StepV::Reply(resp_success(id, Val::Obj(Seq::empty())))
        }
    } else if m == "notifications/initialized"@ {
        StepV::Reply(resp_success(id, Val::Obj(Seq::empty())))
    } else if m == "ping"@ {
        StepV::Reply(resp_success(id, Val::Obj(Seq::empty())))
    } else if m == "tools/list"@ {
        StepV::Reply(resp_success(id, tools_list_result()))
    } else if m == "tools/call"@ {
        spec_tool_call_step(id, req)
    } else {
        StepV::Reply(resp_error(id, METHOD_NOT_FOUND as int, "Method '"@ + m + "' not found"@))
    }
}

/// What one input line makes the server do: nothing at all when the line
/// was empty or not valid JSON.
pub open spec fn spec_handle_line(line: Option<Val>) -> StepV {
    match line {
        None => StepV::NoReply,
        Some(req) => spec_handle_request(req),
    }
}

/// What a backend reply makes the server do.  A transport failure or an
/// error-carrying body becomes a tool-execution failure; a result is
/// wrapped, or triggers the block-tree fetch, or completes the
/// `{page, blocks}` merge.
pub open spec fn spec_handle_backend_reply(p: PendingV, reply: Result<Val, Seq<char>>) -> StepV {
    match reply {
        Err(m) => StepV::Reply(
            resp_error(p.id, INTERNAL_ERROR as int, "Tool execution failed: "@ + m),
        ),
        Ok(body) => match spec_classify(body) {
            Err(m) => StepV::Reply(
                resp_error(p.id, INTERNAL_ERROR as int, "Tool execution failed: "@ + m),
            ),
            Ok(result) => match p.kind {
                PendingKindV::Wrap(shape) => StepV::Reply(
                    resp_success(p.id, content_result(wrap_result(shape, result))),
                ),
                PendingKindV::FetchBlocksTree(name) => StepV::Backend(
                    call_get_page_blocks_tree(name),
                    PendingV { id: p.id, kind: PendingKindV::MergePage(result) },
                ),
                PendingKindV::MergePage(page) => StepV::Reply(
                    resp_success(
                        p.id,
                        content_result(
                            Val::Obj(seq![("page"@, page), ("blocks"@, result)]),
                        ),
                    ),
                ),
            },
        },
    }
}

/// Builds the `initialize` response.
pub fn handle_initialize(id: Json) -> (r: JsonRpcResponse)
    ensures
        r@ == resp_success(id@, initialize_result()),
{
    let tools = get_all_tools();
    let tools_array = tools_to_json(&tools);
    let mut caps: Vec<(String, Json)> = Vec::new();
    caps.push((String::from_str("tools"), Json::empty_obj()));
    caps.push((String::from_str("logseq"), Json::Bool(true)));
    let ghost caps_view = caps@;
    let mut info: Vec<(String, Json)> = Vec::new();
    info.push((String::from_str("name"), Json::string("mcp-logseq-rust")));
    info.push((String::from_str("version"), Json::string("1.0.0")));
    let ghost info_view = info@;
    let mut fields: Vec<(String, Json)> = Vec::new();
    fields.push((String::from_str("protocolVersion"), Json::string("2024-11-05")));
    fields.push((String::from_str("capabilities"), Json::Obj(caps)));
    fields.push((String::from_str("serverInfo"), Json::Obj(info)));
    fields.push((String::from_str("tools"), tools_array));
    let result = Json::Obj(fields);
    proof {
        lemma_field_vals_of_index(caps_view);
        lemma_field_vals_of_index(info_view);
        lemma_field_vals_of_index(fields@);
        assert(field_vals_of(caps_view) =~= seq![
            ("tools"@, Val::Obj(Seq::<(Seq<char>, Val)>::empty())),
            ("logseq"@, Val::Bool(true)),
        ]);
        assert(field_vals_of(info_view) =~= seq![
            ("name"@, Val::Str("mcp-logseq-rust"@)),
            ("version"@, Val::Str("1.0.0"@)),
        ]);
        assert(field_vals_of(fields@) =~= initialize_result()->Obj_0);
    }
    ResponseBuilder::success(id, result)
}

/// Acknowledges `initialized` when a client sends it as a request, and
/// suppresses the response when it arrives as a notification.
pub fn handle_initialized(id: Option<Json>) -> (r: Step)
    ensures
        r@ == (match opt_val(id) {
            None => StepV::NoReply,
            Some(v) => if v is Null {
                StepV::NoReply
            } else {
                StepV::Reply(resp_success(spec_valid_id(Some(v)), Val::Obj(Seq::empty())))
            }
        }),
{
    match &id {
        None => Step::NoReply,
        Some(Json::Null) => Step::NoReply,
        Some(_) => Step::Reply(
            ResponseBuilder::success(ensure_valid_id(id), Json::empty_obj()),
        ),
    }
}

/// Answers a ping with the empty result object.
pub fn handle_ping(id: Json) -> (r: JsonRpcResponse)
    ensures
        r@ == resp_success(id@, Val::Obj(Seq::empty())),
{
    ResponseBuilder::success(id, Json::empty_obj())
}

/// Acknowledges the `notifications/initialized` variant, which always
/// gets a response.
pub fn handle_notifications_initialized(id: Json) -> (r: JsonRpcResponse)
    ensures
        r@ == resp_success(id@, Val::Obj(Seq::empty())),
{
    ResponseBuilder::success(id, Json::empty_obj())
}

/// Builds the `tools/list` response.
pub fn handle_tools_list(id: Json) -> (r: JsonRpcResponse)
    ensures
        r@ == resp_success(id@, tools_list_result()),
{
    let tools = get_all_tools();
    let tools_array = tools_to_json(&tools);
    let mut fields: Vec<(String, Json)> = Vec::new();
    fields.push((String::from_str("tools"), tools_array));
    let result = Json::Obj(fields);
    proof {
        lemma_field_vals_of_index(fields@);
        assert(field_vals_of(fields@) =~= tools_list_result()->Obj_0);
    }
    ResponseBuilder::success(id, result)
}

/// Validates a `tools/call` request and plans its tool invocation.
pub fn handle_tool_call(id: Json, request: &Json) -> (r: Step)
    ensures
        r@ == spec_tool_call_step(id@, request@),
{
    let params = match request.get("params") {
        Some(p) => p,
        None => {
            return Step::Reply(
                ResponseBuilder::internal_error(
                    id,
                    String::from_str("Tool execution failed: Missing params"),
                ),
            );
        },
    };
    let name = match params.get_str("name") {
        Some(n) => n,
        None => {
            return Step::Reply(
                ResponseBuilder::internal_error(
                    id,
                    String::from_str("Tool execution failed: Missing tool name"),
                ),
            );
        },
    };
    let default_arguments = Json::empty_obj();
    let arguments = match params.get("arguments") {
        Some(a) => a,
        None => &default_arguments,
    };
    match dispatch_tool(name, arguments) {
        Ok(plan) => {
            let kind = match plan.rest {
                PlanRest::Wrap(shape) => PendingKind::Wrap(shape),
                PlanRest::FetchBlocksTree { page_name } => PendingKind::FetchBlocksTree {
                    page_name,
                },
            };
            Step::Backend(plan.call, PendingCall { id, kind })
        },
        Err(m) => {
            let mut message = String::from_str("Tool execution failed: ");
            message.append(m.as_str());
            Step::Reply(ResponseBuilder::internal_error(id, message))
        },
    }
}

/// Routes one parsed request to its handler.
pub fn handle_request(request: &Json) -> (r: Step)
    ensures
        r@ == spec_handle_request(request@),
{
    let id_field: Option<Json> = match request.get("id") {
        Some(j) => Some(j.duplicate()),
        None => None,
    };
    let method: String = match request.get_str("method") {
        Some(m) => m.clone(),
        None => String::new(),
    };
    if crate::json::str_is(&method, "initialize") {
        Step::Reply(handle_initialize(ensure_valid_id(id_field)))
    } else if crate::json::str_is(&method, "initialized") {
        handle_initialized(id_field)
    } else if crate::json::str_is(&method, "notifications/initialized") {
        Step::Reply(handle_notifications_initialized(ensure_valid_id(id_field)))
    } else if crate::json::str_is(&method, "ping") {
        Step::Reply(handle_ping(ensure_valid_id(id_field)))
    } else if crate::json::str_is(&method, "tools/list") {
        Step::Reply(handle_tools_list(ensure_valid_id(id_field)))
    } else if crate::json::str_is(&method, "tools/call") {
        handle_tool_call(ensure_valid_id(id_field), request)
    } else {
        Step::Reply(ResponseBuilder::method_not_found(ensure_valid_id(id_field), method.as_str()))
    }
}

/// Handles one input line, already parsed (or not: an empty or
/// unparseable line is `None` and is skipped without any output).
pub fn handle_line(parsed: Option<Json>) -> (r: Step)
    ensures
        r@ == spec_handle_line(opt_val(parsed)),
{
    match parsed {
        None => Step::NoReply,
        Some(request) => handle_request(&request),
    }
}

/// Continues a tool invocation with the backend's reply: `Err` carries a
/// transport failure's description, `Ok` the parsed response body.
pub fn handle_backend_reply(pending: PendingCall, reply: Result<Json, String>) -> (r: Step)
    ensures
        r@ == spec_handle_backend_reply(
            pending@,
            match reply {
                Ok(b) => Ok(b@),
                Err(m) => Err(m@),
            },
        ),
{
    let body = match reply {
        Ok(b) => b,
        Err(m) => {
            let mut message = String::from_str("Tool execution failed: ");
            message.append(m.as_str());
            return Step::Reply(ResponseBuilder::internal_error(pending.id, message));
        },
    };
    let result = match classify_api_response(&body) {
        Ok(v) => v,
        Err(m) => {
            let mut message = String::from_str("Tool execution failed: ");
            message.append(m.as_str());
            return Step::Reply(ResponseBuilder::internal_error(pending.id, message));
        },
    };
    match pending.kind {
        PendingKind::Wrap(shape) => {
            let wrapped = wrap_tool_result(shape, result);
            Step::Reply(ResponseBuilder::success(pending.id, make_content(&wrapped)))
        },
        PendingKind::FetchBlocksTree { page_name } => Step::Backend(
            request_get_page_blocks_tree(page_name.as_str()),
            PendingCall { id: pending.id, kind: PendingKind::MergePage { page: result } },
        ),
        PendingKind::MergePage { page } => {
            let mut fields: Vec<(String, Json)> = Vec::new();
            fields.push((String::from_str("page"), page));
            fields.push((String::from_str("blocks"), result));
            let ghost fields_view = fields@;
            let merged = Json::Obj(fields);
            proof {
                lemma_field_vals_of_index(fields_view);
                assert(field_vals_of(fields_view) =~= seq![
                    ("page"@, pending.kind->MergePage_page@),
                    ("blocks"@, merged->Obj_0@[1].1@),
                ]);
            }
            Step::Reply(ResponseBuilder::success(pending.id, make_content(&merged)))
        },
    }
}

/// Builds a tool's response value from its backend result, by shape.
fn wrap_tool_result(shape: WrapShape, result: Json) -> (r: Json)
    ensures
        r@ == wrap_result(shape, result@),
{
    let ghost result_view = result@;
    match shape {
        WrapShape::Graphs => {
            let mut arr: Vec<Json> = Vec::new();
            arr.push(result);
            let ghost arr_view = arr@;
            let mut fields: Vec<(String, Json)> = Vec::new();
            fields.push((String::from_str("graphs"), Json::Arr(arr)));
            let r = Json::Obj(fields);
            proof {
                crate::json::lemma_vals_of_index(arr_view);
                assert(crate::json::vals_of(arr_view) =~= seq![result_view]);
                lemma_field_vals_of_index(r->Obj_0@);
                assert(field_vals_of(r->Obj_0@) =~= seq![
                    ("graphs"@, Val::Arr(seq![result_view])),
                ]);
            }
            r
        },
        WrapShape::Pages => wrap_under_key("pages", result),
        WrapShape::Block => wrap_under_key("block", result),
        WrapShape::Results => wrap_under_key("results", result),
        WrapShape::SuccessPage => wrap_success_under_key("page", result),
        WrapShape::SuccessBlock => wrap_success_under_key("block", result),
        WrapShape::SuccessResult => wrap_success_under_key("result", result),
    }
}

/// `{key: result}`.
fn wrap_under_key(key: &str, result: Json) -> (r: Json)
    ensures
        r@ == Val::Obj(seq![(key@, result@)]),
{
    let ghost result_view = result@;
    let mut fields: Vec<(String, Json)> = Vec::new();
    fields.push((String::from_str(key), result));
    let r = Json::Obj(fields);
    proof {
        lemma_field_vals_of_index(r->Obj_0@);
        assert(field_vals_of(r->Obj_0@) =~= seq![(key@, result_view)]);
    }
    r
}

/// `{"success": true, key: result}`.
fn wrap_success_under_key(key: &str, result: Json) -> (r: Json)
    ensures
        r@ == Val::Obj(seq![("success"@, Val::Bool(true)), (key@, result@)]),
{
    let ghost result_view = result@;
    let mut fields: Vec<(String, Json)> = Vec::new();
    fields.push((String::from_str("success"), Json::Bool(true)));
    fields.push((String::from_str(key), result));
    let r = Json::Obj(fields);
    proof {
        lemma_field_vals_of_index(r->Obj_0@);
        assert(field_vals_of(r->Obj_0@) =~= seq![
            ("success"@, Val::Bool(true)),
            (key@, result_view),
        ]);
    }
    r
}

/// Wraps a tool's response value as the MCP text content block.
fn make_content(value: &Json) -> (r: Json)
    ensures
        r@ == content_result(value@),
{
    let text = value.to_pretty();
    let mut block: Vec<(String, Json)> = Vec::new();
    block.push((String::from_str("type"), Json::string("text")));
    block.push((String::from_str("text"), Json::Str(text)));
    let ghost block_view = block@;
    let mut arr: Vec<Json> = Vec::new();
    arr.push(Json::Obj(block));
    let ghost arr_view = arr@;
    let mut fields: Vec<(String, Json)> = Vec::new();
    fields.push((String::from_str("content"), Json::Arr(arr)));
    let r = Json::Obj(fields);
    proof {
        lemma_field_vals_of_index(block_view);
        assert(field_vals_of(block_view) =~= seq![
            ("type"@, Val::Str("text"@)),
            ("text"@, Val::Str(pretty_of(value@, Seq::empty()))),
        ]);
        crate::json::lemma_vals_of_index(arr_view);
        assert(crate::json::vals_of(arr_view) =~= seq![
            Val::Obj(
                seq![
                    ("type"@, Val::Str("text"@)),
                    ("text"@, Val::Str(pretty_of(value@, Seq::empty()))),
                ],
            ),
        ]);
        lemma_field_vals_of_index(r->Obj_0@);
        assert(field_vals_of(r->Obj_0@) =~= content_result(value@)->Obj_0);
    }
    r
}

} // verus!

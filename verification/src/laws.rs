//! The protocol's guarantees, stated and proved over the engine's model.

use vstd::prelude::*;

use crate::engine::{
    effective_id, initialize_result, req_is_notification, req_method, spec_handle_backend_reply,
    spec_handle_line, spec_handle_request, spec_tool_call_step, tools_list_result, PendingKindV,
    PendingV, StepV,
};
use crate::json::{val_get, val_get_str, Val};
use crate::logseq_client::{call_get_page_blocks_tree, spec_classify};
use crate::protocol::{err_val, err_fields, resp_fields, resp_success, resp_val, ErrV, RespV};
use crate::render::{
    dec_int, lemma_dec_int_newline_free, lemma_text_of_single_line, newline_free,
    nums_newline_free, text_of,
};
use crate::tools::{
    recognized_tool, spec_dispatch, spec_tools, spec_tool_names, tools_json, tool_json,
    lemma_tools_json_index, lemma_registry_wf, ToolV,
};

verus! {

proof fn reveal_method_names()
    ensures
        "initialize"@ != "initialized"@,
        "initialize"@ != "notifications/initialized"@,
        "initialize"@ != "ping"@,
        "initialize"@ != "tools/list"@,
        "initialize"@ != "tools/call"@,
        "initialized"@ != "notifications/initialized"@,
        "initialized"@ != "ping"@,
        "initialized"@ != "tools/list"@,
        "initialized"@ != "tools/call"@,
        "notifications/initialized"@ != "ping"@,
        "notifications/initialized"@ != "tools/list"@,
        "notifications/initialized"@ != "tools/call"@,
        "ping"@ != "tools/list"@,
        "ping"@ != "tools/call"@,
        "tools/list"@ != "tools/call"@,
{
    reveal_strlit("initialize");
    reveal_strlit("initialized");
    reveal_strlit("notifications/initialized");
    reveal_strlit("ping");
    reveal_strlit("tools/list");
    reveal_strlit("tools/call");
    assert("initialize"@.len() == 10);
    assert("initialized"@.len() == 11);
    assert("notifications/initialized"@.len() == 25);
    assert("ping"@.len() == 4);
    assert("tools/list"@.len() == 10);
    assert("tools/call"@.len() == 10);
    assert("initialize"@[0] == 'i' && "tools/list"@[0] == 't');
    assert("tools/list"@[6] == 'l' && "tools/call"@[6] == 'c');
    assert("initialize"@[0] == 'i' && "tools/call"@[0] == 't');
}

/// Echoing of correlation ids: for every request whose `id` is present
/// and not `null`, whatever the engine does next carries exactly that id
/// — a response echoes it, and a backend call remembers it for the
/// response to come.  Nothing is suppressed for such a request.
pub proof fn lemma_response_echoes_id(req: Val)
    requires
        val_get(req, "id"@) is Some,
        !(val_get(req, "id"@)->0 is Null),
    ensures
        match spec_handle_request(req) {
            StepV::Reply(resp) => resp.id == val_get(req, "id"@)->0,
            StepV::Backend(_, p) => p.id == val_get(req, "id"@)->0,
            StepV::NoReply => false,
        },
{
    assert(effective_id(req) == val_get(req, "id"@)->0);
    assert(!req_is_notification(req));
}

/// A pending id survives the backend exchange: the eventual response
/// (or the follow-up call) carries the id the request arrived with.
pub proof fn lemma_backend_reply_keeps_id(p: PendingV, reply: Result<Val, Seq<char>>)
    ensures
        match spec_handle_backend_reply(p, reply) {
            StepV::Reply(resp) => resp.id == p.id,
            StepV::Backend(_, q) => q.id == p.id,
            StepV::NoReply => false,
        },
{
}

/// Shape of everything the engine emits: a response always carries
/// `jsonrpc: "2.0"`, exactly one of `result` and `error`, and an id that
/// is never `null`; a backend call never remembers a `null` id either.
pub proof fn lemma_reply_well_formed(req: Val)
    ensures
        match spec_handle_request(req) {
            StepV::Reply(resp) => resp.jsonrpc == "2.0"@ && (resp.result is Some) != (resp.error
                is Some) && !(resp.id is Null),
            StepV::Backend(_, p) => !(p.id is Null),
            StepV::NoReply => true,
        },
{
    assert(!(effective_id(req) is Null));
}

/// The same shape is kept when a backend reply completes a call.
pub proof fn lemma_backend_reply_well_formed(p: PendingV, reply: Result<Val, Seq<char>>)
    requires
        !(p.id is Null),
    ensures
        match spec_handle_backend_reply(p, reply) {
            StepV::Reply(resp) => resp.jsonrpc == "2.0"@ && (resp.result is Some) != (resp.error
                is Some) && !(resp.id is Null),
            StepV::Backend(_, q) => !(q.id is Null),
            StepV::NoReply => false,
        },
{
}

/// Suppression is exact: the engine stays silent for an `initialized`
/// notification and for nothing else.
pub proof fn lemma_only_initialized_notifications_are_suppressed(req: Val)
    ensures
        (spec_handle_request(req) == StepV::NoReply) <==> (req_method(req) == "initialized"@
            && req_is_notification(req)),
{
    reveal_method_names();
}

/// Notification semantics of `initialized`: with an absent or `null` id
/// no output line is produced, while `notifications/initialized` is
/// always acknowledged with an empty result, notification or not.
pub proof fn lemma_initialized_notification(req: Val)
    requires
        req_method(req) == "initialized"@ || req_method(req) == "notifications/initialized"@,
    ensures
        req_method(req) == "initialized"@ && req_is_notification(req)
            ==> spec_handle_request(req) == StepV::NoReply,
        req_method(req) == "notifications/initialized"@ ==> spec_handle_request(req)
            == StepV::Reply(resp_success(effective_id(req), Val::Obj(Seq::empty()))),
{
    reveal_method_names();
}

/// Unknown methods: any method name outside the six dispatched ones is
/// answered with error code -32601, and the message contains the
/// offending method name (it sits right after the opening quote).
pub proof fn lemma_unknown_method(req: Val)
    requires
        req_method(req) != "initialize"@,
        req_method(req) != "initialized"@,
        req_method(req) != "notifications/initialized"@,
        req_method(req) != "ping"@,
        req_method(req) != "tools/list"@,
        req_method(req) != "tools/call"@,
    ensures
        spec_handle_request(req) matches StepV::Reply(resp),
        spec_handle_request(req)->Reply_0.error is Some,
        spec_handle_request(req)->Reply_0.error->0.code == -32601,
        spec_handle_request(req)->Reply_0.error->0.message == "Method '"@ + req_method(req)
            + "' not found"@,
        spec_handle_request(req)->Reply_0.error->0.message.subrange(
            8,
            8 + req_method(req).len() as int,
        ) == req_method(req),
{
    reveal_strlit("Method '");
    assert("Method '"@.len() == 8);
    let m = req_method(req);
    let message = "Method '"@ + m + "' not found"@;
    assert(message.subrange(8, 8 + m.len() as int) =~= m);
}

/// The advertised tool list is one and the same in `initialize` and
/// `tools/list`; it lists exactly the ten tool names, in order, and the
/// dispatch table recognizes precisely the advertised names: no tool is
/// advertised but not dispatchable, none dispatchable but unadvertised.
pub proof fn lemma_tool_lists_agree()
    ensures
        val_get(initialize_result(), "tools"@) == Some(Val::Arr(tools_json(spec_tools()))),
        val_get(tools_list_result(), "tools"@) == Some(Val::Arr(tools_json(spec_tools()))),
        tools_json(spec_tools()).len() == 10,
        forall|i: int|
            0 <= i < 10 ==> val_get(#[trigger] tools_json(spec_tools())[i], "name"@) == Some(
                Val::Str(spec_tool_names()[i]),
            ),
        forall|name: Seq<char>| recognized_tool(name) <==> spec_tool_names().contains(name),
{
    reveal_strlit("protocolVersion");
    reveal_strlit("capabilities");
    reveal_strlit("serverInfo");
    reveal_strlit("tools");
    assert("protocolVersion"@.len() == 15);
    assert("capabilities"@.len() == 12);
    assert("serverInfo"@.len() == 10);
    assert("tools"@.len() == 5);
    let key = "tools"@;
    let fs = initialize_result()->Obj_0;
    let fs1 = fs.drop_first();
    let fs2 = fs1.drop_first();
    let fs3 = fs2.drop_first();
    assert(fs.first().0 == "protocolVersion"@);
    assert(crate::json::lookup_fields(fs, key) == crate::json::lookup_fields(fs1, key));
    assert(fs1.first() == fs[1]);
    assert(crate::json::lookup_fields(fs1, key) == crate::json::lookup_fields(fs2, key));
    assert(fs2.first() == fs[2]);
    assert(crate::json::lookup_fields(fs2, key) == crate::json::lookup_fields(fs3, key));
    assert(fs3.first() == fs[3]);
    assert(crate::json::lookup_fields(fs3, key) == Some(fs[3].1));
    lemma_tools_json_index(spec_tools());
    lemma_registry_wf();
    assert forall|i: int| 0 <= i < 10 implies val_get(
        #[trigger] tools_json(spec_tools())[i],
        "name"@,
    ) == Some(Val::Str(spec_tool_names()[i])) by {
        assert(tools_json(spec_tools())[i] == tool_json(spec_tools()[i]));
    }
    assert forall|name: Seq<char>| recognized_tool(name) <==> spec_tool_names().contains(
        name,
    ) by {
        if recognized_tool(name) {
            if name == "list_graphs"@ {
                assert(spec_tool_names()[0] == name);
            } else if name == "list_pages"@ {
                assert(spec_tool_names()[1] == name);
            } else if name == "get_page"@ {
                assert(spec_tool_names()[2] == name);
            } else if name == "get_block"@ {
                assert(spec_tool_names()[3] == name);
            } else if name == "search"@ {
                assert(spec_tool_names()[4] == name);
            } else if name == "create_page"@ {
                assert(spec_tool_names()[5] == name);
            } else if name == "update_block"@ {
                assert(spec_tool_names()[6] == name);
            } else if name == "insert_block"@ {
                assert(spec_tool_names()[7] == name);
            } else if name == "delete_block"@ {
                assert(spec_tool_names()[8] == name);
            } else {
                assert(spec_tool_names()[9] == name);
            }
        }
        if spec_tool_names().contains(name) {
            let i = choose|i: int| 0 <= i < spec_tool_names().len() && spec_tool_names()[i]
                == name;
            assert(recognized_tool(spec_tool_names()[i]));
        }
    }
}

/// `ping` is answered with the empty result object under the effective
/// id; the engine holds no state, so the step is a pure function of the
/// request and any number of repetitions yields this same response.
pub proof fn lemma_ping(req: Val)
    requires
        req_method(req) == "ping"@,
    ensures
        spec_handle_request(req) == StepV::Reply(
            resp_success(effective_id(req), Val::Obj(Seq::empty())),
        ),
{
    reveal_method_names();
}

/// A line that is empty or fails to parse produces no output at all.
pub proof fn lemma_unparsed_line_suppressed()
    ensures
        spec_handle_line(None) == StepV::NoReply,
{
}

proof fn lemma_err_val_nums(e: ErrV)
    requires
        match e.data {
            Some(d) => nums_newline_free(d),
            None => true,
        },
    ensures
        nums_newline_free(err_val(e)),
{
    lemma_dec_int_newline_free(e.code);
    let fields = err_fields(e);
    assert forall|i: int| 0 <= i < fields.len() implies nums_newline_free(
        #[trigger] fields[i].1,
    ) by {
        if i == 0 {
            assert(fields[0].1 == Val::Num(dec_int(e.code)));
        } else if i == 1 {
            assert(fields[1].1 == Val::Str(e.message));
        } else {
            assert(fields[2].1 == e.data->0);
        }
    }
}

/// Responses stay on one wire line: as long as the number tokens inside
/// the echoed id, the result and any error data are newline-free (parsed
/// number tokens are), the serialized response contains no newline, so
/// exactly one line is written per response.
pub proof fn lemma_response_is_single_line(r: RespV)
    requires
        nums_newline_free(r.id),
        match r.result {
            Some(v) => nums_newline_free(v),
            None => true,
        },
        match r.error {
            Some(e) => match e.data {
                Some(d) => nums_newline_free(d),
                None => true,
            },
            None => true,
        },
    ensures
        newline_free(text_of(resp_val(r))),
{
    let fields = resp_fields(r);
    assert forall|i: int| 0 <= i < fields.len() implies nums_newline_free(
        #[trigger] fields[i].1,
    ) by {
        if i == 0 {
            assert(fields[0].1 == Val::Str(r.jsonrpc));
        } else if i == 1 {
            assert(fields[1].1 == r.id);
        } else {
            match (r.result, r.error) {
                (Some(v), Some(e)) => {
                    if i == 2 {
                        assert(fields[2].1 == v);
                    } else {
                        assert(fields[3].1 == err_val(e));
                        lemma_err_val_nums(e);
                    }
                },
                (Some(v), None) => {
                    assert(fields[2].1 == v);
                },
                (None, Some(e)) => {
                    assert(fields[2].1 == err_val(e));
                    lemma_err_val_nums(e);
                },
                (None, None) => {
                    assert(false);
                },
            }
        }
    }
    assert(nums_newline_free(resp_val(r)));
    lemma_text_of_single_line(resp_val(r));
}

/// The arguments object binds every parameter the tool requires to a
/// string value.
pub open spec fn tool_args_ok(t: ToolV, args: Val) -> bool {
    match t.input_schema.required {
        None => true,
        Some(req) => forall|j: int|
            0 <= j < req.len() ==> val_get_str(args, #[trigger] req[j]) is Some,
    }
}

proof fn reveal_tool_names()
    ensures
        "list_graphs"@.len() == 11,
        "list_pages"@.len() == 10,
        "get_page"@.len() == 8,
        "get_block"@.len() == 9,
        "search"@.len() == 6,
        "create_page"@.len() == 11,
        "update_block"@.len() == 12,
        "insert_block"@.len() == 12,
        "delete_block"@.len() == 12,
        "append_to_page"@.len() == 14,
        "list_graphs"@ != "create_page"@,
        "update_block"@ != "insert_block"@,
        "update_block"@ != "delete_block"@,
        "insert_block"@ != "delete_block"@,
{
    reveal_strlit("list_graphs");
    reveal_strlit("list_pages");
    reveal_strlit("get_page");
    reveal_strlit("get_block");
    reveal_strlit("search");
    reveal_strlit("create_page");
    reveal_strlit("update_block");
    reveal_strlit("insert_block");
    reveal_strlit("delete_block");
    reveal_strlit("append_to_page");
    assert("list_graphs"@[0] == 'l' && "create_page"@[0] == 'c');
    assert("update_block"@[0] == 'u' && "insert_block"@[0] == 'i' && "delete_block"@[0] == 'd');
}

/// Round trip, dispatch half: every advertised tool can be called.
/// Whenever the arguments bind that tool's required parameters to
/// strings, dispatching its advertised name yields a plan, never the
/// unknown-tool failure or a parameter failure.
pub proof fn lemma_advertised_tools_callable(i: int, args: Val)
    requires
        0 <= i < 10,
        tool_args_ok(spec_tools()[i], args),
    ensures
        spec_dispatch(spec_tools()[i].name, args) is Ok,
{
    reveal_tool_names();
    let t = spec_tools()[i];
    if i == 2 {
        assert(val_get_str(args, "page_name"@) is Some) by {
            assert(t.input_schema.required->0[0] == "page_name"@);
        }
    } else if i == 3 {
        assert(val_get_str(args, "uuid"@) is Some) by {
            assert(t.input_schema.required->0[0] == "uuid"@);
        }
    } else if i == 4 {
        assert(val_get_str(args, "query"@) is Some) by {
            assert(t.input_schema.required->0[0] == "query"@);
        }
    } else if i == 5 {
        assert(val_get_str(args, "page_name"@) is Some) by {
            assert(t.input_schema.required->0[0] == "page_name"@);
        }
    } else if i == 6 {
        assert(val_get_str(args, "uuid"@) is Some && val_get_str(args, "content"@) is Some) by {
            assert(t.input_schema.required->0[0] == "uuid"@);
            assert(t.input_schema.required->0[1] == "content"@);
        }
    } else if i == 7 {
        assert(val_get_str(args, "parent_uuid"@) is Some && val_get_str(args, "content"@)
            is Some) by {
            assert(t.input_schema.required->0[0] == "parent_uuid"@);
            assert(t.input_schema.required->0[1] == "content"@);
        }
    } else if i == 8 {
        assert(val_get_str(args, "uuid"@) is Some) by {
            assert(t.input_schema.required->0[0] == "uuid"@);
        }
    } else if i == 9 {
        assert(val_get_str(args, "page_name"@) is Some && val_get_str(args, "content"@)
            is Some) by {
            assert(t.input_schema.required->0[0] == "page_name"@);
            assert(t.input_schema.required->0[1] == "content"@);
        }
    }
}

/// Missing required parameters are reported: a `tools/call` of
/// `update_block` whose arguments bind `uuid` but not `content` is
/// answered with error code -32603 and a message naming `content`.
pub proof fn lemma_missing_param_reported(id: Val, req: Val)
    requires
        val_get(req, "params"@) is Some,
        val_get_str(val_get(req, "params"@)->0, "name"@) == Some("update_block"@),
        val_get(val_get(req, "params"@)->0, "arguments"@) is Some,
        val_get_str(val_get(val_get(req, "params"@)->0, "arguments"@)->0, "uuid"@) is Some,
        val_get_str(val_get(val_get(req, "params"@)->0, "arguments"@)->0, "content"@) is None,
    ensures
        spec_tool_call_step(id, req) matches StepV::Reply(resp),
        spec_tool_call_step(id, req)->Reply_0.error is Some,
        spec_tool_call_step(id, req)->Reply_0.error->0.code == -32603,
        spec_tool_call_step(id, req)->Reply_0.error->0.message == "Tool execution failed: "@
            + "content parameter is required"@,
        spec_tool_call_step(id, req)->Reply_0.error->0.message.subrange(23, 30) == "content"@,
{
    reveal_tool_names();
    reveal_strlit("Tool execution failed: ");
    reveal_strlit("content parameter is required");
    reveal_strlit("content");
    assert("Tool execution failed: "@.len() == 23);
    assert("content parameter is required"@.len() == 29);
    let message = "Tool execution failed: "@ + "content parameter is required"@;
    assert(message.subrange(23, 30) =~= "content"@);
}

/// Round trip, composed: a `tools/call` of any advertised tool, with
/// its required parameters bound to strings, issues a backend call; when
/// every backend reply comes back without an error field, the exchange
/// ends in a response that carries a result (never an error) under the
/// request's effective id.  Every tool needs one reply; `get_page` asks
/// for a second one (`body2`) before finishing.
pub proof fn lemma_round_trip(i: int, req: Val, body1: Val, body2: Val)
    requires
        0 <= i < 10,
        req_method(req) == "tools/call"@,
        val_get(req, "params"@) is Some,
        val_get_str(val_get(req, "params"@)->0, "name"@) == Some(spec_tools()[i].name),
        val_get(val_get(req, "params"@)->0, "arguments"@) is Some,
        tool_args_ok(spec_tools()[i], val_get(val_get(req, "params"@)->0, "arguments"@)->0),
        val_get(body1, "error"@) is None,
        val_get(body2, "error"@) is None,
    ensures
        spec_handle_request(req) matches StepV::Backend(_, p1) && match spec_handle_backend_reply(
            p1,
            Ok(body1),
        ) {
            StepV::Reply(resp) => resp.result is Some && resp.error is None && resp.id
                == effective_id(req),
            StepV::Backend(_, p2) => match spec_handle_backend_reply(p2, Ok(body2)) {
                StepV::Reply(resp) => resp.result is Some && resp.error is None && resp.id
                    == effective_id(req),
                _ => false,
            },
            StepV::NoReply => false,
        },
{
    reveal_method_names();
    lemma_advertised_tools_callable(
        i,
        val_get(val_get(req, "params"@)->0, "arguments"@)->0,
    );
    let step1 = spec_handle_request(req);
    assert(step1 == spec_tool_call_step(effective_id(req), req));
    assert(step1 matches StepV::Backend(_, _));
    let p1 = step1->Backend_1;
    lemma_successful_reply_completes(p1, body1);
    match spec_handle_backend_reply(p1, Ok(body1)) {
        StepV::Backend(_, p2) => {
            lemma_successful_reply_completes(p2, body2);
        },
        _ => {},
    }
}

/// Round trip, completion half: once a tool call's backend replies
/// without an error field, the engine finishes with a result response
/// (never an error), except that `get_page`'s first reply triggers the
/// block-tree fetch under the same id, whose own successful reply then
/// completes with a result response.
pub proof fn lemma_successful_reply_completes(p: PendingV, body: Val)
    requires
        val_get(body, "error"@) is None,
    ensures
        match p.kind {
            PendingKindV::FetchBlocksTree(name) => spec_handle_backend_reply(p, Ok(body))
                == StepV::Backend(
                call_get_page_blocks_tree(name),
                PendingV { id: p.id, kind: PendingKindV::MergePage(body) },
            ),
            _ => {
                &&& spec_handle_backend_reply(p, Ok(body)) matches StepV::Reply(resp)
                &&& spec_handle_backend_reply(p, Ok(body))->Reply_0.result is Some
                &&& spec_handle_backend_reply(p, Ok(body))->Reply_0.error is None
                &&& spec_handle_backend_reply(p, Ok(body))->Reply_0.id == p.id
            },
        },
{
    assert(spec_classify(body) == Ok::<Val, Seq<char>>(body));
}

} // verus!

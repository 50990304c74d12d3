//! The gateway to the Logseq HTTP API.
//!
//! Every backend operation is a `POST {base_url}/api` whose body carries
//! `{method, args}`.  This module builds those envelopes and classifies
//! the responses; performing the HTTP exchange itself is I/O and is left
//! to the binary, which feeds the parsed body back into the engine.

use vstd::prelude::*;

use crate::config::Config;
use crate::json::{Json, Val, val_get, vals_of, lemma_vals_of_index};
use crate::models::{CallV, LogseqApiRequest};
use crate::render::text_of;

verus! {

/// Builds API call envelopes and classifies API responses for one
/// configured Logseq instance.
#[derive(Debug, PartialEq)]
pub struct LogseqClient {
    /// Connection settings: base URL and bearer token.
    pub config: Config,
}

pub open spec fn call_get_current_graph() -> CallV {
    CallV { method: "logseq.App.getCurrentGraph"@, args: Seq::empty() }
}

pub open spec fn call_get_all_pages() -> CallV {
    CallV { method: "logseq.Editor.getAllPages"@, args: Seq::empty() }
}

pub open spec fn call_get_page(page_name: Seq<char>) -> CallV {
    CallV { method: "logseq.Editor.getPage"@, args: seq![Val::Str(page_name)] }
}

pub open spec fn call_get_page_blocks_tree(page_name: Seq<char>) -> CallV {
    CallV { method: "logseq.Editor.getPageBlocksTree"@, args: seq![Val::Str(page_name)] }
}

pub open spec fn call_get_block(uuid: Seq<char>) -> CallV {
    CallV { method: "logseq.Editor.getBlock"@, args: seq![Val::Str(uuid)] }
}

pub open spec fn call_search(query: Seq<char>) -> CallV {
    CallV { method: "logseq.App.search"@, args: seq![Val::Str(query)] }
}

/// Creating a page sends only the name for an empty page; content, when
/// present, travels as a markdown options object.
pub open spec fn call_create_page(page_name: Seq<char>, content: Option<Seq<char>>) -> CallV {
    CallV {
        method: "logseq.Editor.createPage"@,
        args: match content {
            None => seq![Val::Str(page_name)],
            Some(c) => seq![
                Val::Str(page_name),
                Val::Obj(
                    seq![("content"@, Val::Str(c)), ("format"@, Val::Str("markdown"@))],
                ),
            ],
        },
    }
}

pub open spec fn call_insert_block(parent_uuid: Seq<char>, content: Seq<char>, sibling: bool)
    -> CallV {
    CallV {
        method: "logseq.Editor.insertBlock"@,
        args: seq![
            Val::Str(parent_uuid),
            Val::Str(content),
            Val::Obj(seq![("sibling"@, Val::Bool(sibling))]),
        ],
    }
}

pub open spec fn call_update_block(uuid: Seq<char>, content: Seq<char>) -> CallV {
    CallV {
        method: "logseq.Editor.updateBlock"@,
        args: seq![Val::Str(uuid), Val::Str(content)],
    }
}

pub open spec fn call_delete_block(uuid: Seq<char>) -> CallV {
    CallV { method: "logseq.Editor.removeBlock"@, args: seq![Val::Str(uuid)] }
}

pub open spec fn call_append_block_in_page(page_name: Seq<char>, content: Seq<char>) -> CallV {
    CallV {
        method: "logseq.Editor.appendBlockInPage"@,
        args: seq![Val::Str(page_name), Val::Str(content)],
    }
}

/// How an API response body is classified: a body with a top-level
/// `error` field is a backend failure whose message embeds that error's
/// rendering; any other body is the call's result.
pub open spec fn spec_classify(body: Val) -> Result<Val, Seq<char>> {
    match val_get(body, "error"@) {
        Some(e) => Err("Logseq API error: "@ + text_of(e)),
        None => Ok(body),
    }
}

/// Classifies a parsed API response body.
pub fn classify_api_response(body: &Json) -> (r: Result<Json, String>)
    ensures
        match r {
            Ok(v) => spec_classify(body@) == Ok::<Val, Seq<char>>(v@),
            Err(m) => spec_classify(body@) == Err::<Val, Seq<char>>(m@),
        },
{
    match body.get("error") {
        Some(e) => {
            let mut message = String::from_str("Logseq API error: ");
            let rendered = e.to_text();
            message.append(rendered.as_str());
            Err(message)
        },
        None => Ok(body.duplicate()),
    }
}

fn no_args() -> (r: Vec<Json>)
    ensures
        vals_of(r@) == Seq::<Val>::empty(),
{
    let r: Vec<Json> = Vec::new();
    proof {
        assert(vals_of(r@) =~= Seq::<Val>::empty());
    }
    r
}

fn one_string_arg(a: &str) -> (r: Vec<Json>)
    ensures
        vals_of(r@) == seq![Val::Str(a@)],
        r@.len() == 1,
        crate::json::val_of(r@[0]) == Val::Str(a@),
{
    let mut r: Vec<Json> = Vec::new();
    r.push(Json::string(a));
    proof {
        lemma_vals_of_index(r@);
        assert(vals_of(r@) =~= seq![Val::Str(a@)]);
    }
    r
}

impl LogseqClient {
    /// A client for the configured Logseq instance.
    pub fn new(config: Config) -> (r: Result<Self, crate::error::McpError>)
        ensures
            match r {
                Ok(c) => c.config == config,
                Err(_) => false,
            },
    {
        Ok(LogseqClient { config })
    }

    /// The URL that every API call posts to.
    pub fn api_endpoint(&self) -> (r: String)
        ensures
            r@ == self.config.logseq_api_url@ + "/api"@,
    {
        let mut url = self.config.logseq_api_url.clone();
        url.append("/api");
        url
    }

    /// The value of the `Authorization` header for every API call.
    pub fn auth_header(&self) -> (r: String)
        ensures
            r@ == "Bearer "@ + self.config.logseq_api_token@,
    {
        let mut h = String::from_str("Bearer ");
        h.append(self.config.logseq_api_token.as_str());
        h
    }

    /// See `request_get_current_graph`.
    pub fn get_current_graph(&self) -> (r: LogseqApiRequest)
        ensures
            r@ == call_get_current_graph(),
    {
        request_get_current_graph()
    }

    /// See `request_get_all_pages`.
    pub fn get_all_pages(&self) -> (r: LogseqApiRequest)
        ensures
            r@ == call_get_all_pages(),
    {
        request_get_all_pages()
    }

    /// See `request_get_page`.
    pub fn get_page(&self, page_name: &str) -> (r: LogseqApiRequest)
        ensures
            r@ == call_get_page(page_name@),
    {
        request_get_page(page_name)
    }

    /// See `request_get_page_blocks_tree`.
    pub fn get_page_blocks_tree(&self, page_name: &str) -> (r: LogseqApiRequest)
        ensures
            r@ == call_get_page_blocks_tree(page_name@),
    {
        request_get_page_blocks_tree(page_name)
    }

    /// See `request_get_block`.
    pub fn get_block(&self, uuid: &str) -> (r: LogseqApiRequest)
        ensures
            r@ == call_get_block(uuid@),
    {
        request_get_block(uuid)
    }

    /// See `request_search`.
    pub fn search(&self, query: &str) -> (r: LogseqApiRequest)
        ensures
            r@ == call_search(query@),
    {
        request_search(query)
    }

    /// See `request_create_page`.
    pub fn create_page(&self, page_name: &str, content: Option<&str>) -> (r: LogseqApiRequest)
        ensures
            r@ == call_create_page(
            page_name@,
            match content {
                Some(c) => Some(c@),
                None => None,
            },
        ),
    {
        request_create_page(page_name, content)
    }

    /// See `request_insert_block`.
    pub fn insert_block(&self, parent_uuid: &str, content: &str, sibling: bool) -> (r: LogseqApiRequest)
        ensures
            r@ == call_insert_block(parent_uuid@, content@, sibling),
    {
        request_insert_block(parent_uuid, content, sibling)
    }

    /// See `request_update_block`.
    pub fn update_block(&self, uuid: &str, content: &str) -> (r: LogseqApiRequest)
        ensures
            r@ == call_update_block(uuid@, content@),
    {
        request_update_block(uuid, content)
    }

    /// See `request_delete_block`.
    pub fn delete_block(&self, uuid: &str) -> (r: LogseqApiRequest)
        ensures
            r@ == call_delete_block(uuid@),
    {
        request_delete_block(uuid)
    }

    /// See `request_append_block_in_page`.
    pub fn append_block_in_page(&self, page_name: &str, content: &str) -> (r: LogseqApiRequest)
        ensures
            r@ == call_append_block_in_page(page_name@, content@),
    {
        request_append_block_in_page(page_name, content)
    }
}

/// The call that fetches the currently open graph.
pub fn request_get_current_graph() -> (r: LogseqApiRequest)
    ensures
        r@ == call_get_current_graph(),
{
    let r = LogseqApiRequest {
        method: String::from_str("logseq.App.getCurrentGraph"),
        args: no_args(),
    };
    proof {
        assert(r@ =~~= call_get_current_graph());
    }
    r
}

/// The call that lists every page of the graph.
pub fn request_get_all_pages() -> (r: LogseqApiRequest)
    ensures
        r@ == call_get_all_pages(),
{
    let r = LogseqApiRequest {
        method: String::from_str("logseq.Editor.getAllPages"),
        args: no_args(),
    };
    proof {
        assert(r@ =~~= call_get_all_pages());
    }
    r
}

/// The call that fetches one page's metadata.
pub fn request_get_page(page_name: &str) -> (r: LogseqApiRequest)
    ensures
        r@ == call_get_page(page_name@),
{
    let r = LogseqApiRequest {
        method: String::from_str("logseq.Editor.getPage"),
        args: one_string_arg(page_name),
    };
    proof {
        assert(r@ =~~= call_get_page(page_name@));
    }
    r
}

/// The call that fetches one page's block tree.
pub fn request_get_page_blocks_tree(page_name: &str) -> (r: LogseqApiRequest)
    ensures
        r@ == call_get_page_blocks_tree(page_name@),
{
    let r = LogseqApiRequest {
        method: String::from_str("logseq.Editor.getPageBlocksTree"),
        args: one_string_arg(page_name),
    };
    proof {
        assert(r@ =~~= call_get_page_blocks_tree(page_name@));
    }
    r
}

/// The call that fetches one block.
pub fn request_get_block(uuid: &str) -> (r: LogseqApiRequest)
    ensures
        r@ == call_get_block(uuid@),
{
    let r = LogseqApiRequest {
        method: String::from_str("logseq.Editor.getBlock"),
        args: one_string_arg(uuid),
    };
    proof {
        assert(r@ =~~= call_get_block(uuid@));
    }
    r
}

/// The call that searches the graph.
pub fn request_search(query: &str) -> (r: LogseqApiRequest)
    ensures
        r@ == call_search(query@),
{
    let r = LogseqApiRequest {
        method: String::from_str("logseq.App.search"),
        args: one_string_arg(query),
    };
    proof {
        assert(r@ =~~= call_search(query@));
    }
    r
}

/// The call that creates a page, with content only when given.
pub fn request_create_page(page_name: &str, content: Option<&str>) -> (r: LogseqApiRequest)
    ensures
        r@ == call_create_page(
            page_name@,
            match content {
                Some(c) => Some(c@),
                None => None,
            },
        ),
{
    let mut args = one_string_arg(page_name);
    match content {
        Some(c) => {
            let mut fields: Vec<(String, Json)> = Vec::new();
            fields.push((String::from_str("content"), Json::string(c)));
            fields.push((String::from_str("format"), Json::string("markdown")));
            let ghost before = args@;
            args.push(Json::Obj(fields));
            proof {
                lemma_vals_of_index(args@);
                lemma_vals_of_index(before);
                crate::json::lemma_field_vals_of_index(fields@);
                assert(crate::json::field_vals_of(fields@) =~= seq![
                    ("content"@, Val::Str(c@)),
                    ("format"@, Val::Str("markdown"@)),
                ]);
                assert(args@[0] == before[0]);
                assert(crate::json::val_of(args@[0]) == Val::Str(page_name@));
                assert(crate::json::val_of(args@[1]) == Val::Obj(
                    seq![("content"@, Val::Str(c@)), ("format"@, Val::Str("markdown"@))],
                ));
                assert(vals_of(args@) =~= seq![
                    Val::Str(page_name@),
                    Val::Obj(
                        seq![("content"@, Val::Str(c@)), ("format"@, Val::Str("markdown"@))],
                    ),
                ]);
            }
        },
        None => {},
    }
    let r = LogseqApiRequest {
        method: String::from_str("logseq.Editor.createPage"),
        args,
    };
    proof {
        assert(r@ =~~= call_create_page(
            page_name@,
            match content {
                Some(c) => Some(c@),
                None => None,
            },
        ));
    }
    r
}

/// The call that inserts a block under (or beside) a parent.
pub fn request_insert_block(parent_uuid: &str, content: &str, sibling: bool) -> (r:
    LogseqApiRequest)
    ensures
        r@ == call_insert_block(parent_uuid@, content@, sibling),
{
    let mut args = one_string_arg(parent_uuid);
    let ghost first = args@;
    args.push(Json::string(content));
    let mut fields: Vec<(String, Json)> = Vec::new();
    fields.push((String::from_str("sibling"), Json::Bool(sibling)));
    let ghost second = args@;
    args.push(Json::Obj(fields));
    let r = LogseqApiRequest {
        method: String::from_str("logseq.Editor.insertBlock"),
        args,
    };
    proof {
        lemma_vals_of_index(first);
        lemma_vals_of_index(second);
        lemma_vals_of_index(r.args@);
        crate::json::lemma_field_vals_of_index(fields@);
        assert(crate::json::field_vals_of(fields@) =~= seq![("sibling"@, Val::Bool(sibling))]);
        assert(r.args@[0] == first[0]);
        assert(crate::json::val_of(r.args@[0]) == Val::Str(parent_uuid@));
        assert(crate::json::val_of(r.args@[1]) == Val::Str(content@));
        assert(crate::json::val_of(r.args@[2]) == Val::Obj(
            seq![("sibling"@, Val::Bool(sibling))],
        ));
        assert(vals_of(r.args@) =~= seq![
            Val::Str(parent_uuid@),
            Val::Str(content@),
            Val::Obj(seq![("sibling"@, Val::Bool(sibling))]),
        ]);
        assert(r@ =~~= call_insert_block(parent_uuid@, content@, sibling));
    }
    r
}

/// The call that replaces a block's content.
pub fn request_update_block(uuid: &str, content: &str) -> (r: LogseqApiRequest)
    ensures
        r@ == call_update_block(uuid@, content@),
{
    let mut args = one_string_arg(uuid);
    let ghost first = args@;
    args.push(Json::string(content));
    let r = LogseqApiRequest {
        method: String::from_str("logseq.Editor.updateBlock"),
        args,
    };
    proof {
        lemma_vals_of_index(first);
        lemma_vals_of_index(r.args@);
        assert(r.args@[0] == first[0]);
        assert(crate::json::val_of(r.args@[0]) == Val::Str(uuid@));
        assert(crate::json::val_of(r.args@[1]) == Val::Str(content@));
        assert(vals_of(r.args@) =~= seq![Val::Str(uuid@), Val::Str(content@)]);
        assert(r@ =~~= call_update_block(uuid@, content@));
    }
    r
}

/// The call that removes a block.
pub fn request_delete_block(uuid: &str) -> (r: LogseqApiRequest)
    ensures
        r@ == call_delete_block(uuid@),
{
    let r = LogseqApiRequest {
        method: String::from_str("logseq.Editor.removeBlock"),
        args: one_string_arg(uuid),
    };
    proof {
        assert(r@ =~~= call_delete_block(uuid@));
    }
    r
}

/// The call that appends a block at the end of a page.
pub fn request_append_block_in_page(page_name: &str, content: &str) -> (r: LogseqApiRequest)
    ensures
        r@ == call_append_block_in_page(page_name@, content@),
{
    let mut args = one_string_arg(page_name);
    let ghost first = args@;
    args.push(Json::string(content));
    let r = LogseqApiRequest {
        method: String::from_str("logseq.Editor.appendBlockInPage"),
        args,
    };
    proof {
        lemma_vals_of_index(first);
        lemma_vals_of_index(r.args@);
        assert(r.args@[0] == first[0]);
        assert(crate::json::val_of(r.args@[0]) == Val::Str(page_name@));
        assert(crate::json::val_of(r.args@[1]) == Val::Str(content@));
        assert(vals_of(r.args@) =~= seq![Val::Str(page_name@), Val::Str(content@)]);
        assert(r@ =~~= call_append_block_in_page(page_name@, content@));
    }
    r
}

} // verus!

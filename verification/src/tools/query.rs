//! Read-only tool handlers.
//!
//! Each handler validates the declared parameters of its tool and plans
//! the backend call(s) that serve it; a missing or mistyped required
//! parameter is a failure naming that parameter.

use vstd::prelude::*;

use crate::json::{Json, Val, val_get_str};
use crate::logseq_client::{
    call_get_block, call_get_current_graph, call_get_all_pages, call_get_page, call_search,
    request_get_block, request_get_current_graph, request_get_all_pages, request_get_page,
    request_search,
};
use crate::tools::{PlanRest, PlanRestV, PlanV, ToolPlan, WrapShape};

verus! {

/// Lists available graphs: one backend call, its result wrapped as the
/// single element of a `graphs` array.
pub open spec fn spec_list_graphs(params: Val) -> Result<PlanV, Seq<char>> {
    Ok(PlanV { call: call_get_current_graph(), rest: PlanRestV::Wrap(WrapShape::Graphs) })
}

pub fn list_graphs(params: &Json) -> (r: Result<ToolPlan, String>)
    ensures
        match r {
            Ok(p) => spec_list_graphs(params@) == Ok::<PlanV, Seq<char>>(p@),
            Err(m) => spec_list_graphs(params@) == Err::<PlanV, Seq<char>>(m@),
        },
{
    Ok(
        ToolPlan {
            call: request_get_current_graph(),
            rest: PlanRest::Wrap(WrapShape::Graphs),
        },
    )
}

/// Lists all pages of the current graph.
pub open spec fn spec_list_pages(params: Val) -> Result<PlanV, Seq<char>> {
    Ok(PlanV { call: call_get_all_pages(), rest: PlanRestV::Wrap(WrapShape::Pages) })
}

pub fn list_pages(params: &Json) -> (r: Result<ToolPlan, String>)
    ensures
        match r {
            Ok(p) => spec_list_pages(params@) == Ok::<PlanV, Seq<char>>(p@),
            Err(m) => spec_list_pages(params@) == Err::<PlanV, Seq<char>>(m@),
        },
{
    Ok(ToolPlan { call: request_get_all_pages(), rest: PlanRest::Wrap(WrapShape::Pages) })
}

/// Fetches a page: its metadata first, then its block tree, merged into
/// `{page, blocks}`.
pub open spec fn spec_get_page(params: Val) -> Result<PlanV, Seq<char>> {
    match val_get_str(params, "page_name"@) {
        Some(name) => Ok(
            PlanV { call: call_get_page(name), rest: PlanRestV::FetchBlocksTree(name) },
        ),
        None => Err("page_name parameter is required"@),
    }
}

pub fn get_page(params: &Json) -> (r: Result<ToolPlan, String>)
    ensures
        match r {
            Ok(p) => spec_get_page(params@) == Ok::<PlanV, Seq<char>>(p@),
            Err(m) => spec_get_page(params@) == Err::<PlanV, Seq<char>>(m@),
        },
{
    let page_name = match params.get_str("page_name") {
        Some(s) => s,
        None => {
            return Err(String::from_str("page_name parameter is required"));
        },
    };
    Ok(
        ToolPlan {
            call: request_get_page(page_name.as_str()),
            rest: PlanRest::FetchBlocksTree { page_name: page_name.clone() },
        },
    )
}

/// Fetches one block by UUID.
pub open spec fn spec_get_block(params: Val) -> Result<PlanV, Seq<char>> {
    match val_get_str(params, "uuid"@) {
        Some(uuid) => Ok(PlanV { call: call_get_block(uuid), rest: PlanRestV::Wrap(WrapShape::Block) }),
        None => Err("uuid parameter is required"@),
    }
}

pub fn get_block(params: &Json) -> (r: Result<ToolPlan, String>)
    ensures
        match r {
            Ok(p) => spec_get_block(params@) == Ok::<PlanV, Seq<char>>(p@),
            Err(m) => spec_get_block(params@) == Err::<PlanV, Seq<char>>(m@),
        },
{
    let uuid = match params.get_str("uuid") {
        Some(s) => s,
        None => {
            return Err(String::from_str("uuid parameter is required"));
        },
    };
    Ok(
        ToolPlan {
            call: request_get_block(uuid.as_str()),
            rest: PlanRest::Wrap(WrapShape::Block),
        },
    )
}

/// Searches the graph.
pub open spec fn spec_search(params: Val) -> Result<PlanV, Seq<char>> {
    match val_get_str(params, "query"@) {
        Some(q) => Ok(PlanV { call: call_search(q), rest: PlanRestV::Wrap(WrapShape::Results) }),
        None => Err("query parameter is required"@),
    }
}

pub fn search(params: &Json) -> (r: Result<ToolPlan, String>)
    ensures
        match r {
            Ok(p) => spec_search(params@) == Ok::<PlanV, Seq<char>>(p@),
            Err(m) => spec_search(params@) == Err::<PlanV, Seq<char>>(m@),
        },
{
    let query = match params.get_str("query") {
        Some(s) => s,
        None => {
            return Err(String::from_str("query parameter is required"));
        },
    };
    Ok(
        ToolPlan {
            call: request_search(query.as_str()),
            rest: PlanRest::Wrap(WrapShape::Results),
        },
    )
}

} // verus!

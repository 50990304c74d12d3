//! Mutating tool handlers.
//!
//! These tools modify live Logseq data.  Each handler validates its
//! parameters and plans the backend call; the results are wrapped in a
//! `{"success": true, ...}` envelope.

use vstd::prelude::*;

use crate::json::{Json, Val, val_get_bool, val_get_str};
use crate::logseq_client::{
    call_append_block_in_page, call_create_page, call_delete_block, call_insert_block,
    call_update_block, request_append_block_in_page, request_create_page, request_delete_block,
    request_insert_block, request_update_block,
};
use crate::tools::{PlanRest, PlanRestV, PlanV, ToolPlan, WrapShape};

verus! {

/// Creates a page; the optional `content` decides between the empty-page
/// and page-with-content call shapes.
pub open spec fn spec_create_page(params: Val) -> Result<PlanV, Seq<char>> {
    match val_get_str(params, "page_name"@) {
        Some(name) => Ok(
            PlanV {
                call: call_create_page(name, val_get_str(params, "content"@)),
                rest: PlanRestV::Wrap(WrapShape::SuccessPage),
            },
        ),
        None => Err("page_name parameter is required"@),
    }
}

pub fn create_page(params: &Json) -> (r: Result<ToolPlan, String>)
    ensures
        match r {
            Ok(p) => spec_create_page(params@) == Ok::<PlanV, Seq<char>>(p@),
            Err(m) => spec_create_page(params@) == Err::<PlanV, Seq<char>>(m@),
        },
{
    let page_name = match params.get_str("page_name") {
        Some(s) => s,
        None => {
            return Err(String::from_str("page_name parameter is required"));
        },
    };
    let call = match params.get_str("content") {
        Some(content) => request_create_page(page_name.as_str(), Some(content.as_str())),
        None => request_create_page(page_name.as_str(), None),
    };
    Ok(ToolPlan { call, rest: PlanRest::Wrap(WrapShape::SuccessPage) })
}

/// Replaces a block's content.
pub open spec fn spec_update_block(params: Val) -> Result<PlanV, Seq<char>> {
    match val_get_str(params, "uuid"@) {
        Some(uuid) => match val_get_str(params, "content"@) {
            Some(content) => Ok(
                PlanV {
                    call: call_update_block(uuid, content),
                    rest: PlanRestV::Wrap(WrapShape::SuccessBlock),
                },
            ),
            None => Err("content parameter is required"@),
        },
        None => Err("uuid parameter is required"@),
    }
}

pub fn update_block(params: &Json) -> (r: Result<ToolPlan, String>)
    ensures
        match r {
            Ok(p) => spec_update_block(params@) == Ok::<PlanV, Seq<char>>(p@),
            Err(m) => spec_update_block(params@) == Err::<PlanV, Seq<char>>(m@),
        },
{
    let uuid = match params.get_str("uuid") {
        Some(s) => s,
        None => {
            return Err(String::from_str("uuid parameter is required"));
        },
    };
    let content = match params.get_str("content") {
        Some(s) => s,
        None => {
            return Err(String::from_str("content parameter is required"));
        },
    };
    Ok(
        ToolPlan {
            call: request_update_block(uuid.as_str(), content.as_str()),
            rest: PlanRest::Wrap(WrapShape::SuccessBlock),
        },
    )
}

/// Inserts a block as a child of (or sibling to) a parent; a missing or
/// mistyped `sibling` means child insertion.
pub open spec fn spec_insert_block(params: Val) -> Result<PlanV, Seq<char>> {
    match val_get_str(params, "parent_uuid"@) {
        Some(parent) => match val_get_str(params, "content"@) {
            Some(content) => Ok(
                PlanV {
                    call: call_insert_block(
                        parent,
                        content,
                        match val_get_bool(params, "sibling"@) {
                            Some(b) => b,
                            None => false,
                        },
                    ),
                    rest: PlanRestV::Wrap(WrapShape::SuccessBlock),
                },
            ),
            None => Err("content parameter is required"@),
        },
        None => Err("parent_uuid parameter is required"@),
    }
}

pub fn insert_block(params: &Json) -> (r: Result<ToolPlan, String>)
    ensures
        match r {
            Ok(p) => spec_insert_block(params@) == Ok::<PlanV, Seq<char>>(p@),
            Err(m) => spec_insert_block(params@) == Err::<PlanV, Seq<char>>(m@),
        },
{
    let parent_uuid = match params.get_str("parent_uuid") {
        Some(s) => s,
        None => {
            return Err(String::from_str("parent_uuid parameter is required"));
        },
    };
    let content = match params.get_str("content") {
        Some(s) => s,
        None => {
            return Err(String::from_str("content parameter is required"));
        },
    };
    let sibling = match params.get_bool("sibling") {
        Some(b) => b,
        None => false,
    };
    Ok(
        ToolPlan {
            call: request_insert_block(parent_uuid.as_str(), content.as_str(), sibling),
            rest: PlanRest::Wrap(WrapShape::SuccessBlock),
        },
    )
}

/// Removes a block (and its children) permanently.
pub open spec fn spec_delete_block(params: Val) -> Result<PlanV, Seq<char>> {
    match val_get_str(params, "uuid"@) {
        Some(uuid) => Ok(
            PlanV {
                call: call_delete_block(uuid),
                rest: PlanRestV::Wrap(WrapShape::SuccessResult),
            },
        ),
        None => Err("uuid parameter is required"@),
    }
}

pub fn delete_block(params: &Json) -> (r: Result<ToolPlan, String>)
    ensures
        match r {
            Ok(p) => spec_delete_block(params@) == Ok::<PlanV, Seq<char>>(p@),
            Err(m) => spec_delete_block(params@) == Err::<PlanV, Seq<char>>(m@),
        },
{
    let uuid = match params.get_str("uuid") {
        Some(s) => s,
        None => {
            return Err(String::from_str("uuid parameter is required"));
        },
    };
    Ok(
        ToolPlan {
            call: request_delete_block(uuid.as_str()),
            rest: PlanRest::Wrap(WrapShape::SuccessResult),
        },
    )
}

/// Appends a block at the end of a page.
pub open spec fn spec_append_to_page(params: Val) -> Result<PlanV, Seq<char>> {
    match val_get_str(params, "page_name"@) {
        Some(name) => match val_get_str(params, "content"@) {
            Some(content) => Ok(
                PlanV {
                    call: call_append_block_in_page(name, content),
                    rest: PlanRestV::Wrap(WrapShape::SuccessBlock),
                },
            ),
            None => Err("content parameter is required"@),
        },
        None => Err("page_name parameter is required"@),
    }
}

pub fn append_to_page(params: &Json) -> (r: Result<ToolPlan, String>)
    ensures
        match r {
            Ok(p) => spec_append_to_page(params@) == Ok::<PlanV, Seq<char>>(p@),
            Err(m) => spec_append_to_page(params@) == Err::<PlanV, Seq<char>>(m@),
        },
{
    let page_name = match params.get_str("page_name") {
        Some(s) => s,
        None => {
            return Err(String::from_str("page_name parameter is required"));
        },
    };
    let content = match params.get_str("content") {
        Some(s) => s,
        None => {
            return Err(String::from_str("content parameter is required"));
        },
    };
    Ok(
        ToolPlan {
            call: request_append_block_in_page(page_name.as_str(), content.as_str()),
            rest: PlanRest::Wrap(WrapShape::SuccessBlock),
        },
    )
}

} // verus!

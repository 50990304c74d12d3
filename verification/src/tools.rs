//! The tool registry: the ten operations this server advertises.
//!
//! `spec_tools()` is the registry's model; `get_all_tools` is proved to
//! produce exactly it, and `lemma_registry_wf` shows that every parameter
//! a tool requires is declared among its properties.

pub mod builder;
pub mod mutate;
pub mod query;

use vstd::prelude::*;

use crate::json::{Json, Val, field_vals_of, lemma_field_vals_of_index, str_is};
use crate::models::{CallV, LogseqApiRequest};
use crate::tools::builder::{
    simple_tool, single_string_param_tool, string_param_val, bool_param_val, ToolBuilder,
};

verus! {

/// How a tool's backend result is wrapped into the tool's response value.
#[derive(Debug, PartialEq, Eq, Clone, Copy, Structural)]
pub enum WrapShape {
    /// `{"graphs": [result]}`
    Graphs,
    /// `{"pages": result}`
    Pages,
    /// `{"block": result}`
    Block,
    /// `{"results": result}`
    Results,
    /// `{"success": true, "page": result}`
    SuccessPage,
    /// `{"success": true, "block": result}`
    SuccessBlock,
    /// `{"success": true, "result": result}`
    SuccessResult,
}

/// What remains of a tool invocation once its first backend call is out:
/// either wrap that call's result, or (for `get_page`) fetch the page's
/// block tree as well and merge the two.
#[derive(Debug, PartialEq)]
pub enum PlanRest {
    Wrap(WrapShape),
    FetchBlocksTree { page_name: String },
}

/// Model of `PlanRest`.
#[verifier::ext_equal]
pub enum PlanRestV {
    Wrap(WrapShape),
    FetchBlocksTree(Seq<char>),
}

impl View for PlanRest {
    type V = PlanRestV;

    open spec fn view(&self) -> PlanRestV {
        match self {
            PlanRest::Wrap(s) => PlanRestV::Wrap(*s),
            PlanRest::FetchBlocksTree { page_name } => PlanRestV::FetchBlocksTree(page_name@),
        }
    }
}

/// A validated tool invocation: the backend call to make and what to do
/// with its result.
#[derive(Debug, PartialEq)]
pub struct ToolPlan {
    pub call: LogseqApiRequest,
    pub rest: PlanRest,
}

/// Model of a tool plan.
#[verifier::ext_equal]
pub struct PlanV {
    pub call: CallV,
    pub rest: PlanRestV,
}

impl View for ToolPlan {
    type V = PlanV;

    open spec fn view(&self) -> PlanV {
        PlanV { call: self.call@, rest: self.rest@ }
    }
}

/// The tool's response value for a backend result, by wrap shape.
pub open spec fn wrap_result(shape: WrapShape, body: Val) -> Val {
    match shape {
        WrapShape::Graphs => Val::Obj(seq![("graphs"@, Val::Arr(seq![body]))]),
        WrapShape::Pages => Val::Obj(seq![("pages"@, body)]),
        WrapShape::Block => Val::Obj(seq![("block"@, body)]),
        WrapShape::Results => Val::Obj(seq![("results"@, body)]),
        WrapShape::SuccessPage => Val::Obj(
            seq![("success"@, Val::Bool(true)), ("page"@, body)],
        ),
        WrapShape::SuccessBlock => Val::Obj(
            seq![("success"@, Val::Bool(true)), ("block"@, body)],
        ),
        WrapShape::SuccessResult => Val::Obj(
            seq![("success"@, Val::Bool(true)), ("result"@, body)],
        ),
    }
}

/// The tool names the dispatch table recognizes.
pub open spec fn recognized_tool(name: Seq<char>) -> bool {
    ||| name == "list_graphs"@
    ||| name == "list_pages"@
    ||| name == "get_page"@
    ||| name == "get_block"@
    ||| name == "search"@
    ||| name == "create_page"@
    ||| name == "update_block"@
    ||| name == "insert_block"@
    ||| name == "delete_block"@
    ||| name == "append_to_page"@
}

/// What invoking a tool by name does: the matching handler's plan, or the
/// unknown-tool failure.
pub open spec fn spec_dispatch(name: Seq<char>, params: Val) -> Result<PlanV, Seq<char>> {
    if name == "list_graphs"@ {
        query::spec_list_graphs(params)
    } else if name == "list_pages"@ {
        query::spec_list_pages(params)
    } else if name == "get_page"@ {
        query::spec_get_page(params)
    } else if name == "get_block"@ {
        query::spec_get_block(params)
    } else if name == "search"@ {
        query::spec_search(params)
    } else if name == "create_page"@ {
        mutate::spec_create_page(params)
    } else if name == "update_block"@ {
        mutate::spec_update_block(params)
    } else if name == "insert_block"@ {
        mutate::spec_insert_block(params)
    } else if name == "delete_block"@ {
        mutate::spec_delete_block(params)
    } else if name == "append_to_page"@ {
        mutate::spec_append_to_page(params)
    } else {
        Err("Unknown tool: "@ + name)
    }
}

/// Routes a tool call to its handler; an unrecognized name is the
/// unknown-tool failure.
pub fn dispatch_tool(name: &String, params: &Json) -> (r: Result<ToolPlan, String>)
    ensures
        match r {
            Ok(p) => spec_dispatch(name@, params@) == Ok::<PlanV, Seq<char>>(p@),
            Err(m) => spec_dispatch(name@, params@) == Err::<PlanV, Seq<char>>(m@),
        },
{
    if str_is(name, "list_graphs") {
        query::list_graphs(params)
    } else if str_is(name, "list_pages") {
        query::list_pages(params)
    } else if str_is(name, "get_page") {
        query::get_page(params)
    } else if str_is(name, "get_block") {
        query::get_block(params)
    } else if str_is(name, "search") {
        query::search(params)
    } else if str_is(name, "create_page") {
        mutate::create_page(params)
    } else if str_is(name, "update_block") {
        mutate::update_block(params)
    } else if str_is(name, "insert_block") {
        mutate::insert_block(params)
    } else if str_is(name, "delete_block") {
        mutate::delete_block(params)
    } else if str_is(name, "append_to_page") {
        mutate::append_to_page(params)
    } else {
        let mut message = String::from_str("Unknown tool: ");
        message.append(name.as_str());
        Err(message)
    }
}

/// A single tool with its metadata and input schema.
#[derive(Debug, PartialEq)]
pub struct Tool {
    /// Unique identifier for the tool (used in tool calls).
    pub name: String,
    /// Human-readable description of what the tool does.
    pub description: Option<String>,
    /// JSON Schema definition of the tool's input parameters.
    pub input_schema: ToolInputSchema,
}

/// JSON Schema definition for a tool's input parameters.
#[derive(Debug, PartialEq)]
pub struct ToolInputSchema {
    /// The schema type (always "object" for these tools).
    pub schema_type: String,
    /// Each parameter with its type and description.
    pub properties: Option<Vec<(String, Json)>>,
    /// The names of the required parameters.
    pub required: Option<Vec<String>>,
}

/// Model of a tool.
#[verifier::ext_equal]
pub struct ToolV {
    pub name: Seq<char>,
    pub description: Option<Seq<char>>,
    pub input_schema: SchemaV,
}

/// Model of an input schema.
#[verifier::ext_equal]
pub struct SchemaV {
    pub schema_type: Seq<char>,
    pub properties: Option<Seq<(Seq<char>, Val)>>,
    pub required: Option<Seq<Seq<char>>>,
}

pub open spec fn strs_of(items: Seq<String>) -> Seq<Seq<char>>
    decreases items,
{
    if items.len() == 0 {
        Seq::empty()
    } else {
        strs_of(items.drop_last()).push(items.last()@)
    }
}

pub proof fn lemma_strs_of_index(items: Seq<String>)
    ensures
        strs_of(items).len() == items.len(),
        forall|k: int| 0 <= k < items.len() ==> strs_of(items)[k] == items[k]@,
    decreases items,
{
    if items.len() > 0 {
        lemma_strs_of_index(items.drop_last());
    }
}

impl View for ToolInputSchema {
    type V = SchemaV;

    open spec fn view(&self) -> SchemaV {
        SchemaV {
            schema_type: self.schema_type@,
            properties: match self.properties {
                Some(p) => Some(field_vals_of(p@)),
                None => None,
            },
            required: match self.required {
                Some(r) => Some(strs_of(r@)),
                None => None,
            },
        }
    }
}

impl View for Tool {
    type V = ToolV;

    open spec fn view(&self) -> ToolV {
        ToolV {
            name: self.name@,
            description: match self.description {
                Some(d) => Some(d@),
                None => None,
            },
            input_schema: self.input_schema@,
        }
    }
}

pub open spec fn tools_vals(tools: Seq<Tool>) -> Seq<ToolV>
    decreases tools,
{
    if tools.len() == 0 {
        Seq::empty()
    } else {
        tools_vals(tools.drop_last()).push(tools.last()@)
    }
}

pub proof fn lemma_tools_vals_index(tools: Seq<Tool>)
    ensures
        tools_vals(tools).len() == tools.len(),
        forall|k: int| 0 <= k < tools.len() ==> tools_vals(tools)[k] == tools[k]@,
    decreases tools,
{
    if tools.len() > 0 {
        lemma_tools_vals_index(tools.drop_last());
    }
}

pub open spec fn tool_list_graphs() -> ToolV {
    ToolV {
        name: "list_graphs"@,
        description: Some("List available Logseq graphs"@),
        input_schema: SchemaV { schema_type: "object"@, properties: None, required: None },
    }
}

pub open spec fn tool_list_pages() -> ToolV {
    ToolV {
        name: "list_pages"@,
        description: Some("List all pages in the current graph"@),
        input_schema: SchemaV { schema_type: "object"@, properties: None, required: None },
    }
}

pub open spec fn tool_get_page() -> ToolV {
    ToolV {
        name: "get_page"@,
        description: Some("Get content of a specific page by name"@),
        input_schema: SchemaV {
            schema_type: "object"@,
            properties: Some(
                seq![("page_name"@, string_param_val("Name of the page to retrieve"@))],
            ),
            required: Some(seq!["page_name"@]),
        },
    }
}

pub open spec fn tool_get_block() -> ToolV {
    ToolV {
        name: "get_block"@,
        description: Some("Get a specific block by its UUID"@),
        input_schema: SchemaV {
            schema_type: "object"@,
            properties: Some(
                seq![("uuid"@, string_param_val("UUID of the block to retrieve"@))],
            ),
            required: Some(seq!["uuid"@]),
        },
    }
}

pub open spec fn tool_search() -> ToolV {
    ToolV {
        name: "search"@,
        description: Some("Search across all pages in the graph"@),
        input_schema: SchemaV {
            schema_type: "object"@,
            properties: Some(seq![("query"@, string_param_val("Search query string"@))]),
            required: Some(seq!["query"@]),
        },
    }
}

pub open spec fn tool_create_page() -> ToolV {
    ToolV {
        name: "create_page"@,
        description: Some("Create a new page with optional content"@),
        input_schema: SchemaV {
            schema_type: "object"@,
            properties: Some(
                seq![
                    ("page_name"@, string_param_val("Name of the page to create"@)),
                    ("content"@, string_param_val("Initial content for the page (optional)"@)),
                ],
            ),
            required: Some(seq!["page_name"@]),
        },
    }
}

pub open spec fn tool_update_block() -> ToolV {
    ToolV {
        name: "update_block"@,
        description: Some("Update the content of an existing block"@),
        input_schema: SchemaV {
            schema_type: "object"@,
            properties: Some(
                seq![
                    ("uuid"@, string_param_val("UUID of the block to update"@)),
                    ("content"@, string_param_val("New content for the block"@)),
                ],
            ),
            required: Some(seq!["uuid"@, "content"@]),
        },
    }
}

pub open spec fn tool_insert_block() -> ToolV {
    ToolV {
        name: "insert_block"@,
        description: Some("Insert a new block with precise positioning control"@),
        input_schema: SchemaV {
            schema_type: "object"@,
            properties: Some(
                seq![
                    ("parent_uuid"@, string_param_val("UUID of the parent block or page"@)),
                    ("content"@, string_param_val("Content for the new block"@)),
                    (
                        "sibling"@,
                        bool_param_val(
                            "Whether to insert as sibling (true) or child (false)"@,
                            Some(false),
                        ),
                    ),
                ],
            ),
            required: Some(seq!["parent_uuid"@, "content"@]),
        },
    }
}

pub open spec fn tool_delete_block() -> ToolV {
    ToolV {
        name: "delete_block"@,
        description: Some("Delete a block by its UUID"@),
        input_schema: SchemaV {
            schema_type: "object"@,
            properties: Some(
                seq![("uuid"@, string_param_val("UUID of the block to delete"@))],
            ),
            required: Some(seq!["uuid"@]),
        },
    }
}

pub open spec fn tool_append_to_page() -> ToolV {
    ToolV {
        name: "append_to_page"@,
        description: Some("Append a block to the end of a page"@),
        input_schema: SchemaV {
            schema_type: "object"@,
            properties: Some(
                seq![
                    ("page_name"@, string_param_val("Name of the page to append to"@)),
                    ("content"@, string_param_val("Content to append"@)),
                ],
            ),
            required: Some(seq!["page_name"@, "content"@]),
        },
    }
}

/// The registry's model: the ten tools, in the order they are advertised.
pub open spec fn spec_tools() -> Seq<ToolV> {
    seq![
        tool_list_graphs(),
        tool_list_pages(),
        tool_get_page(),
        tool_get_block(),
        tool_search(),
        tool_create_page(),
        tool_update_block(),
        tool_insert_block(),
        tool_delete_block(),
        tool_append_to_page(),
    ]
}

/// The advertised tool names, in order.
pub open spec fn spec_tool_names() -> Seq<Seq<char>> {
    seq![
        "list_graphs"@,
        "list_pages"@,
        "get_page"@,
        "get_block"@,
        "search"@,
        "create_page"@,
        "update_block"@,
        "insert_block"@,
        "delete_block"@,
        "append_to_page"@,
    ]
}

/// Every name a tool requires must be declared among its properties.
pub open spec fn prop_has_key(props: Option<Seq<(Seq<char>, Val)>>, key: Seq<char>) -> bool {
    match props {
        None => false,
        Some(ps) => exists|j: int| 0 <= j < ps.len() && ps[j].0 == key,
    }
}

pub open spec fn schema_wf(t: ToolV) -> bool {
    match t.input_schema.required {
        None => true,
        Some(req) => forall|i: int|
            0 <= i < req.len() ==> prop_has_key(t.input_schema.properties, #[trigger] req[i]),
    }
}

/// The registry names each tool as `spec_tool_names` lists them, and every
/// required parameter of every tool is a declared property.
pub proof fn lemma_registry_wf()
    ensures
        spec_tools().len() == 10,
        forall|i: int| 0 <= i < 10 ==> (#[trigger] spec_tools()[i]).name == spec_tool_names()[i],
        forall|i: int| 0 <= i < 10 ==> schema_wf(#[trigger] spec_tools()[i]),
{
    assert(tool_get_page().input_schema.properties->0[0].0 == "page_name"@);
    assert(schema_wf(tool_get_page()));
    assert(tool_get_block().input_schema.properties->0[0].0 == "uuid"@);
    assert(schema_wf(tool_get_block()));
    assert(tool_search().input_schema.properties->0[0].0 == "query"@);
    assert(schema_wf(tool_search()));
    assert(tool_create_page().input_schema.properties->0[0].0 == "page_name"@);
    assert(schema_wf(tool_create_page()));
    assert(tool_update_block().input_schema.properties->0[0].0 == "uuid"@);
    assert(tool_update_block().input_schema.properties->0[1].0 == "content"@);
    assert(schema_wf(tool_update_block()));
    assert(tool_insert_block().input_schema.properties->0[0].0 == "parent_uuid"@);
    assert(tool_insert_block().input_schema.properties->0[1].0 == "content"@);
    assert(schema_wf(tool_insert_block()));
    assert(tool_delete_block().input_schema.properties->0[0].0 == "uuid"@);
    assert(schema_wf(tool_delete_block()));
    assert(tool_append_to_page().input_schema.properties->0[0].0 == "page_name"@);
    assert(tool_append_to_page().input_schema.properties->0[1].0 == "content"@);
    assert(schema_wf(tool_append_to_page()));
}

pub open spec fn str_vals(names: Seq<Seq<char>>) -> Seq<Val>
    decreases names,
{
    if names.len() == 0 {
        Seq::empty()
    } else {
        str_vals(names.drop_last()).push(Val::Str(names.last()))
    }
}

proof fn lemma_str_vals_index(names: Seq<Seq<char>>)
    ensures
        str_vals(names).len() == names.len(),
        forall|k: int| 0 <= k < names.len() ==> str_vals(names)[k] == Val::Str(names[k]),
    decreases names,
{
    if names.len() > 0 {
        lemma_str_vals_index(names.drop_last());
    }
}

/// How one tool is listed in `initialize` and `tools/list`: name,
/// description (empty when unset) and the full input schema, with empty
/// properties and requirements rendered as empty collections.
pub open spec fn tool_json(t: ToolV) -> Val {
    Val::Obj(
        seq![
            ("name"@, Val::Str(t.name)),
            (
                "description"@,
                Val::Str(
                    match t.description {
                        Some(d) => d,
                        None => Seq::empty(),
                    },
                ),
            ),
            (
                "inputSchema"@,
                Val::Obj(
                    seq![
                        ("type"@, Val::Str(t.input_schema.schema_type)),
                        (
                            "properties"@,
                            Val::Obj(
                                match t.input_schema.properties {
                                    Some(p) => p,
                                    None => Seq::empty(),
                                },
                            ),
                        ),
                        (
                            "required"@,
                            Val::Arr(
                                match t.input_schema.required {
                                    Some(r) => str_vals(r),
                                    None => Seq::empty(),
                                },
                            ),
                        ),
                    ],
                ),
            ),
        ],
    )
}

pub open spec fn tools_json(ts: Seq<ToolV>) -> Seq<Val>
    decreases ts,
{
    if ts.len() == 0 {
        Seq::empty()
    } else {
        tools_json(ts.drop_last()).push(tool_json(ts.last()))
    }
}

pub proof fn lemma_tools_json_index(ts: Seq<ToolV>)
    ensures
        tools_json(ts).len() == ts.len(),
        forall|k: int| 0 <= k < ts.len() ==> tools_json(ts)[k] == tool_json(ts[k]),
    decreases ts,
{
    if ts.len() > 0 {
        lemma_tools_json_index(ts.drop_last());
    }
}

/// Renders one tool's listing entry.
pub fn tool_to_json(t: &Tool) -> (r: Json)
    ensures
        r@ == tool_json(t@),
{
    let name = Json::Str(t.name.clone());
    let description = match &t.description {
        Some(d) => Json::Str(d.clone()),
        None => Json::Str(String::new()),
    };
    let properties = match &t.input_schema.properties {
        Some(p) => Json::Obj(Json::dup_fields(p)),
        None => Json::empty_obj(),
    };
    let required = match &t.input_schema.required {
        Some(names) => {
            let mut items: Vec<Json> = Vec::new();
            let mut i: usize = 0;
            while i < names.len()
                invariant
                    i <= names@.len(),
                    items@.len() == i,
                    forall|k: int|
                        0 <= k < i ==> crate::json::val_of(#[trigger] items@[k]) == Val::Str(
                            names@[k]@,
                        ),
                decreases names@.len() - i,
            {
                items.push(Json::Str(names[i].clone()));
                i += 1;
            }
            proof {
                crate::json::lemma_vals_of_index(items@);
                lemma_strs_of_index(names@);
                lemma_str_vals_index(strs_of(names@));
                assert(crate::json::vals_of(items@) =~= str_vals(strs_of(names@)));
            }
            Json::Arr(items)
        },
        None => Json::Arr(Vec::new()),
    };
    let mut schema_fields: Vec<(String, Json)> = Vec::new();
    schema_fields.push((String::from_str("type"), Json::Str(t.input_schema.schema_type.clone())));
    schema_fields.push((String::from_str("properties"), properties));
    schema_fields.push((String::from_str("required"), required));
    let schema = Json::Obj(schema_fields);
    let mut fields: Vec<(String, Json)> = Vec::new();
    fields.push((String::from_str("name"), name));
    fields.push((String::from_str("description"), description));
    fields.push((String::from_str("inputSchema"), schema));
    let r = Json::Obj(fields);
    proof {
        lemma_field_vals_of_index(schema_fields@);
        lemma_field_vals_of_index(fields@);
        assert(crate::json::vals_of(Seq::<Json>::empty()) =~= Seq::<Val>::empty());
        assert(tool_json(t@)->Obj_0[2].1->Obj_0 =~= field_vals_of(schema_fields@));
        assert(field_vals_of(fields@) =~= tool_json(t@)->Obj_0);
    }
    r
}

/// Renders the whole tool list as a JSON array.
pub fn tools_to_json(tools: &Vec<Tool>) -> (r: Json)
    ensures
        r@ == Val::Arr(tools_json(tools_vals(tools@))),
{
    let mut items: Vec<Json> = Vec::new();
    let mut i: usize = 0;
    while i < tools.len()
        invariant
            i <= tools@.len(),
            items@.len() == i,
            forall|k: int|
                0 <= k < i ==> crate::json::val_of(#[trigger] items@[k]) == tool_json(tools@[k]@),
        decreases tools@.len() - i,
    {
        let entry = tool_to_json(&tools[i]);
        items.push(entry);
        i += 1;
    }
    proof {
        crate::json::lemma_vals_of_index(items@);
        lemma_tools_vals_index(tools@);
        lemma_tools_json_index(tools_vals(tools@));
        assert(crate::json::vals_of(items@) =~= tools_json(tools_vals(tools@)));
    }
    Json::Arr(items)
}

/// Builds the registry: the ten tools this server offers.
pub fn get_all_tools() -> (r: Vec<Tool>)
    ensures
        tools_vals(r@) == spec_tools(),
{
    let mut tools: Vec<Tool> = Vec::new();
    tools.push(simple_tool("list_graphs", "List available Logseq graphs"));
    tools.push(simple_tool("list_pages", "List all pages in the current graph"));
    tools.push(
        single_string_param_tool(
            "get_page",
            "Get content of a specific page by name",
            "page_name",
            "Name of the page to retrieve",
        ),
    );
    tools.push(
        single_string_param_tool(
            "get_block",
            "Get a specific block by its UUID",
            "uuid",
            "UUID of the block to retrieve",
        ),
    );
    tools.push(
        single_string_param_tool(
            "search",
            "Search across all pages in the graph",
            "query",
            "Search query string",
        ),
    );
    tools.push(
        ToolBuilder::new("create_page").description("Create a new page with optional content")
            .string_param("page_name", "Name of the page to create", true)
            .string_param("content", "Initial content for the page (optional)", false)
            .build(),
    );
    tools.push(
        ToolBuilder::new("update_block").description("Update the content of an existing block")
            .string_param("uuid", "UUID of the block to update", true)
            .string_param("content", "New content for the block", true)
            .build(),
    );
    tools.push(
        ToolBuilder::new("insert_block").description(
            "Insert a new block with precise positioning control",
        ).string_param("parent_uuid", "UUID of the parent block or page", true)
            .string_param("content", "Content for the new block", true)
            .bool_param(
            "sibling",
            "Whether to insert as sibling (true) or child (false)",
            Some(false),
            false,
        ).build(),
    );
    tools.push(
        single_string_param_tool(
            "delete_block",
            "Delete a block by its UUID",
            "uuid",
            "UUID of the block to delete",
        ),
    );
    tools.push(
        ToolBuilder::new("append_to_page").description("Append a block to the end of a page")
            .string_param("page_name", "Name of the page to append to", true)
            .string_param("content", "Content to append", true)
            .build(),
    );
    proof {
        lemma_tools_vals_index(tools@);
        assert(tools@[0]@ =~~= tool_list_graphs());
        assert(tools@[1]@ =~~= tool_list_pages());
        assert(tools@[2]@ =~~= tool_get_page());
        assert(tools@[3]@ =~~= tool_get_block());
        assert(tools@[4]@ =~~= tool_search());
        assert(tools@[5]@ =~~= tool_create_page());
        assert(tools@[6]@ =~~= tool_update_block());
        assert(tools@[7]@ =~~= tool_insert_block());
        assert(tools@[8]@ =~~= tool_delete_block());
        assert(tools@[9]@ =~~= tool_append_to_page());
        assert(tools_vals(tools@) =~~= spec_tools());
    }
    tools
}

} // verus!

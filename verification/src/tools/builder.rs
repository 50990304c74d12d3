//! A fluent builder for tool definitions.

use vstd::prelude::*;

use crate::json::{Json, Val, field_vals_of, lemma_field_vals_of_index};
use crate::tools::{strs_of, SchemaV, Tool, ToolInputSchema, ToolV};

verus! {

/// Builder for creating tool definitions.
pub struct ToolBuilder {
    name: String,
    description: Option<String>,
    properties: Vec<(String, Json)>,
    required: Vec<String>,
}

/// Model of a builder in progress.
#[verifier::ext_equal]
pub struct BuilderV {
    pub name: Seq<char>,
    pub description: Option<Seq<char>>,
    pub properties: Seq<(Seq<char>, Val)>,
    pub required: Seq<Seq<char>>,
}

impl View for ToolBuilder {
    type V = BuilderV;

    closed spec fn view(&self) -> BuilderV {
        BuilderV {
            name: self.name@,
            description: match self.description {
                Some(d) => Some(d@),
                None => None,
            },
            properties: field_vals_of(self.properties@),
            required: strs_of(self.required@),
        }
    }
}

/// The schema fragment of a string parameter.
pub open spec fn string_param_val(description: Seq<char>) -> Val {
    Val::Obj(
        seq![("type"@, Val::Str("string"@)), ("description"@, Val::Str(description))],
    )
}

/// The schema fragment of a boolean parameter, with its default if any.
pub open spec fn bool_param_val(description: Seq<char>, default: Option<bool>) -> Val {
    let base = seq![("type"@, Val::Str("boolean"@)), ("description"@, Val::Str(description))];
    match default {
        Some(d) => Val::Obj(base.push(("default"@, Val::Bool(d)))),
        None => Val::Obj(base),
    }
}

/// The schema fragment of an integer parameter.
pub open spec fn int_param_val(description: Seq<char>) -> Val {
    Val::Obj(
        seq![("type"@, Val::Str("integer"@)), ("description"@, Val::Str(description))],
    )
}

fn make_string_param(description: &str) -> (r: Json)
    ensures
        r@ == string_param_val(description@),
{
    let mut fields: Vec<(String, Json)> = Vec::new();
    fields.push((String::from_str("type"), Json::string("string")));
    fields.push((String::from_str("description"), Json::string(description)));
    let r = Json::Obj(fields);
    proof {
        lemma_field_vals_of_index(fields@);
        assert(field_vals_of(fields@) =~= seq![
            ("type"@, Val::Str("string"@)),
            ("description"@, Val::Str(description@)),
        ]);
    }
    r
}

fn make_bool_param(description: &str, default: Option<bool>) -> (r: Json)
    ensures
        r@ == bool_param_val(description@, default),
{
    let mut fields: Vec<(String, Json)> = Vec::new();
    fields.push((String::from_str("type"), Json::string("boolean")));
    fields.push((String::from_str("description"), Json::string(description)));
    match default {
        Some(d) => {
            fields.push((String::from_str("default"), Json::Bool(d)));
        },
        None => {},
    }
    let r = Json::Obj(fields);
    proof {
        lemma_field_vals_of_index(fields@);
        let base = seq![
            ("type"@, Val::Str("boolean"@)),
            ("description"@, Val::Str(description@)),
        ];
        match default {
            Some(d) => {
                assert(field_vals_of(fields@) =~= base.push(("default"@, Val::Bool(d))));
            },
            None => {
                assert(field_vals_of(fields@) =~= base);
            },
        }
    }
    r
}

fn make_int_param(description: &str) -> (r: Json)
    ensures
        r@ == int_param_val(description@),
{
    let mut fields: Vec<(String, Json)> = Vec::new();
    fields.push((String::from_str("type"), Json::string("integer")));
    fields.push((String::from_str("description"), Json::string(description)));
    let r = Json::Obj(fields);
    proof {
        lemma_field_vals_of_index(fields@);
        assert(field_vals_of(fields@) =~= seq![
            ("type"@, Val::Str("integer"@)),
            ("description"@, Val::Str(description@)),
        ]);
    }
    r
}

impl ToolBuilder {
    /// A new builder for a tool of the given name.
    pub fn new(name: &str) -> (r: Self)
        ensures
            r@ == (BuilderV {
                name: name@,
                description: None,
                properties: Seq::empty(),
                required: Seq::empty(),
            }),
    {
        let r = ToolBuilder {
            name: String::from_str(name),
            description: None,
            properties: Vec::new(),
            required: Vec::new(),
        };
        proof {
            assert(field_vals_of(r.properties@) =~= Seq::<(Seq<char>, Val)>::empty());
            assert(strs_of(r.required@) =~= Seq::<Seq<char>>::empty());
        }
        r
    }

    /// Sets the tool description.
    pub fn description(self, desc: &str) -> (r: Self)
        ensures
            r@ == (BuilderV { description: Some(desc@), ..self@ }),
    {
        ToolBuilder { description: Some(String::from_str(desc)), ..self }
    }

    /// Adds a string parameter.
    pub fn string_param(self, name: &str, description: &str, required: bool) -> (r: Self)
        ensures
            r@ == (BuilderV {
                properties: self@.properties.push((name@, string_param_val(description@))),
                required: if required {
                    self@.required.push(name@)
                } else {
                    self@.required
                },
                ..self@
            }),
    {
        self.push_param(name, make_string_param(description), required)
    }

    /// Adds a boolean parameter, optionally with a default.
    pub fn bool_param(self, name: &str, description: &str, default: Option<bool>, required: bool)
        -> (r: Self)
        ensures
            r@ == (BuilderV {
                properties: self@.properties.push((name@, bool_param_val(description@, default))),
                required: if required {
                    self@.required.push(name@)
                } else {
                    self@.required
                },
                ..self@
            }),
    {
        self.push_param(name, make_bool_param(description, default), required)
    }

    /// Adds an integer parameter.
    pub fn int_param(self, name: &str, description: &str, required: bool) -> (r: Self)
        ensures
            r@ == (BuilderV {
                properties: self@.properties.push((name@, int_param_val(description@))),
                required: if required {
                    self@.required.push(name@)
                } else {
                    self@.required
                },
                ..self@
            }),
    {
        self.push_param(name, make_int_param(description), required)
    }

    fn push_param(self, name: &str, definition: Json, required: bool) -> (r: Self)
        ensures
            r@ == (BuilderV {
                properties: self@.properties.push((name@, definition@)),
                required: if required {
                    self@.required.push(name@)
                } else {
                    self@.required
                },
                ..self@
            }),
    {
        let mut this = self;
        let ghost old_props = this.properties@;
        let ghost old_req = this.required@;
        this.properties.push((String::from_str(name), definition));
        if required {
            this.required.push(String::from_str(name));
        }
        proof {
            lemma_field_vals_of_index(old_props);
            lemma_field_vals_of_index(this.properties@);
            assert(this.properties@.drop_last() =~= old_props);
            assert(field_vals_of(this.properties@) =~= field_vals_of(old_props).push(
                (name@, definition@),
            ));
            crate::tools::lemma_strs_of_index(old_req);
            crate::tools::lemma_strs_of_index(this.required@);
            if required {
                assert(this.required@.drop_last() =~= old_req);
                assert(strs_of(this.required@) =~= strs_of(old_req).push(name@));
            }
        }
        this
    }

    /// Builds the final tool.  Empty parameter and requirement lists are
    /// left out of the schema rather than carried as empty collections.
    pub fn build(self) -> (r: Tool)
        ensures
            r@ == (ToolV {
                name: self@.name,
                description: self@.description,
                input_schema: SchemaV {
                    schema_type: "object"@,
                    properties: if self@.properties.len() == 0 {
                        None
                    } else {
                        Some(self@.properties)
                    },
                    required: if self@.required.len() == 0 {
                        None
                    } else {
                        Some(self@.required)
                    },
                },
            }),
    {
        proof {
            lemma_field_vals_of_index(self.properties@);
            crate::tools::lemma_strs_of_index(self.required@);
        }
        let properties = if self.properties.len() == 0 {
            None
        } else {
            Some(self.properties)
        };
        let required = if self.required.len() == 0 {
            None
        } else {
            Some(self.required)
        };
        Tool {
            name: self.name,
            description: self.description,
            input_schema: ToolInputSchema {
                schema_type: String::from_str("object"),
                properties,
                required,
            },
        }
    }
}

/// A tool without parameters.
pub fn simple_tool(name: &str, description: &str) -> (r: Tool)
    ensures
        r@ == (ToolV {
            name: name@,
            description: Some(description@),
            input_schema: SchemaV { schema_type: "object"@, properties: None, required: None },
        }),
{
    ToolBuilder::new(name).description(description).build()
}

/// A tool with a single required string parameter.
pub fn single_string_param_tool(name: &str, description: &str, param_name: &str, param_desc: &str)
    -> (r: Tool)
    ensures
        r@ == (ToolV {
            name: name@,
            description: Some(description@),
            input_schema: SchemaV {
                schema_type: "object"@,
                properties: Some(seq![(param_name@, string_param_val(param_desc@))]),
                required: Some(seq![param_name@]),
            },
        }),
{
    let r = ToolBuilder::new(name).description(description).string_param(
        param_name,
        param_desc,
        true,
    ).build();
    proof {
        assert(Seq::<(Seq<char>, Val)>::empty().push((param_name@, string_param_val(param_desc@)))
            =~= seq![(param_name@, string_param_val(param_desc@))]);
        assert(Seq::<Seq<char>>::empty().push(param_name@) =~= seq![param_name@]);
    }
    r
}

} // verus!

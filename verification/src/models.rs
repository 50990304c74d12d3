//! Data models for the backend API and for Logseq entities.

use vstd::prelude::*;

use crate::json::{Json, Val, vals_of, lemma_vals_of_index, field_vals_of, lemma_field_vals_of_index};

verus! {

/// The envelope of a call to the Logseq HTTP API: a method name and its
/// positional arguments.
#[derive(Debug, PartialEq)]
pub struct LogseqApiRequest {
    /// The API method to invoke (e.g. "logseq.Editor.getPage").
    pub method: String,
    /// Arguments to pass to the method, as a JSON array.
    pub args: Vec<Json>,
}

/// Model of an API call envelope.
#[verifier::ext_equal]
pub struct CallV {
    pub method: Seq<char>,
    pub args: Seq<Val>,
}

impl View for LogseqApiRequest {
    type V = CallV;

    open spec fn view(&self) -> CallV {
        CallV { method: self.method@, args: vals_of(self.args@) }
    }
}

/// The JSON body that carries an API call over HTTP.
pub open spec fn call_body(c: CallV) -> Val {
    Val::Obj(seq![("method"@, Val::Str(c.method)), ("args"@, Val::Arr(c.args))])
}

impl LogseqApiRequest {
    /// The JSON object sent as the request body.
    pub fn to_json(&self) -> (r: Json)
        ensures
            r@ == call_body(self@),
    {
        let mut args: Vec<Json> = Vec::new();
        let mut i: usize = 0;
        while i < self.args.len()
            invariant
                i <= self.args@.len(),
                args@.len() == i,
                forall|k: int| 0 <= k < i ==> (#[trigger] args@[k])@ == self.args@[k]@,
            decreases self.args@.len() - i,
        {
            let d = self.args[i].duplicate();
            args.push(d);
            i += 1;
        }
        proof {
            lemma_vals_of_index(args@);
            lemma_vals_of_index(self.args@);
            assert(vals_of(args@) =~= vals_of(self.args@));
        }
        let mut fields: Vec<(String, Json)> = Vec::new();
        fields.push((String::from_str("method"), Json::Str(self.method.clone())));
        fields.push((String::from_str("args"), Json::Arr(args)));
        let r = Json::Obj(fields);
        proof {
            lemma_field_vals_of_index(fields@);
            assert(field_vals_of(fields@) =~= seq![
                ("method"@, Val::Str(self.method@)),
                ("args"@, Val::Arr(vals_of(self.args@))),
            ]);
        }
        r
    }
}

/// A response from the Logseq HTTP API, split into its success and error
/// parts.
#[derive(Debug, PartialEq)]
pub struct LogseqApiResponse {
    /// The successful result data from the API call.
    pub result: Option<Json>,
    /// The error message if the API call failed.
    pub error: Option<String>,
}

/// A page in a Logseq graph.
#[derive(Debug, PartialEq)]
pub struct Page {
    /// The page name (also serves as the page identifier).
    pub name: String,
    /// Unique identifier for the page.
    pub uuid: String,
    /// Optional text content of the page.
    pub content: Option<String>,
}

/// A block within a Logseq page.
#[derive(Debug, PartialEq)]
pub struct Block {
    /// Unique identifier for the block.
    pub uuid: String,
    /// The text content of the block.
    pub content: String,
    /// Name of the page this block belongs to.
    pub page: Option<String>,
    /// Child blocks nested under this block.
    pub children: Option<Vec<Block>>,
}

/// A Logseq graph.
#[derive(Debug, PartialEq)]
pub struct Graph {
    /// Human-readable name of the graph.
    pub name: String,
    /// File system path where the graph is stored.
    pub path: String,
}

} // verus!

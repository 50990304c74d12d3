//! JSON-RPC 2.0 protocol handling.
//!
//! Request and response envelopes, the error-code vocabulary, and the
//! builders that shape outgoing responses.  A response is modelled by
//! `RespV` and rendered to a JSON value by `resp_val`, which the engine's
//! contracts are stated against.

mod response;

pub use response::{HandlerResponse, HandlerResponseV};

use vstd::prelude::*;

use crate::json::{Json, Val, val_get, val_get_str, field_vals_of, lemma_field_vals_of_index};
use crate::render::{dec_int, int_to_string, text_of};

verus! {

pub const PARSE_ERROR: i32 = -32700;

pub const INVALID_REQUEST: i32 = -32600;

pub const METHOD_NOT_FOUND: i32 = -32601;

pub const INVALID_PARAMS: i32 = -32602;

pub const INTERNAL_ERROR: i32 = -32603;

/// A JSON-RPC 2.0 request.
#[derive(Debug, PartialEq)]
pub struct JsonRpcRequest {
    pub jsonrpc: String,
    pub method: String,
    pub params: Option<Json>,
    pub id: Option<Json>,
}

/// A JSON-RPC 2.0 response; exactly one of `result` and `error` is set.
#[derive(Debug, PartialEq)]
pub struct JsonRpcResponse {
    pub jsonrpc: String,
    pub result: Option<Json>,
    pub error: Option<JsonRpcError>,
    pub id: Json,
}

/// A JSON-RPC 2.0 error object.
#[derive(Debug, PartialEq)]
pub struct JsonRpcError {
    pub code: i32,
    pub message: String,
    pub data: Option<Json>,
}

pub open spec fn opt_val(o: Option<Json>) -> Option<Val> {
    match o {
        Some(j) => Some(j@),
        None => None,
    }
}

/// Model of a request.
#[verifier::ext_equal]
pub struct ReqV {
    pub jsonrpc: Seq<char>,
    pub method: Seq<char>,
    pub params: Option<Val>,
    pub id: Option<Val>,
}

/// Model of a response.
#[verifier::ext_equal]
pub struct RespV {
    pub jsonrpc: Seq<char>,
    pub result: Option<Val>,
    pub error: Option<ErrV>,
    pub id: Val,
}

/// Model of an error object.
#[verifier::ext_equal]
pub struct ErrV {
    pub code: int,
    pub message: Seq<char>,
    pub data: Option<Val>,
}

impl View for JsonRpcRequest {
    type V = ReqV;

    open spec fn view(&self) -> ReqV {
        ReqV {
            jsonrpc: self.jsonrpc@,
            method: self.method@,
            params: opt_val(self.params),
            id: opt_val(self.id),
        }
    }
}

impl View for JsonRpcError {
    type V = ErrV;

    open spec fn view(&self) -> ErrV {
        ErrV { code: self.code as int, message: self.message@, data: opt_val(self.data) }
    }
}

impl View for JsonRpcResponse {
    type V = RespV;

    open spec fn view(&self) -> RespV {
        RespV {
            jsonrpc: self.jsonrpc@,
            result: opt_val(self.result),
            error: match self.error {
                Some(e) => Some(e@),
                None => None,
            },
            id: self.id@,
        }
    }
}

/// The model of a successful response carrying `result`.
pub open spec fn resp_success(id: Val, result: Val) -> RespV {
    RespV { jsonrpc: "2.0"@, result: Some(result), error: None, id }
}

/// The model of an error response without data.
pub open spec fn resp_error(id: Val, code: int, message: Seq<char>) -> RespV {
    RespV {
        jsonrpc: "2.0"@,
        result: None,
        error: Some(ErrV { code, message, data: None }),
        id,
    }
}

/// The fields of the JSON object that renders an error object.
pub open spec fn err_fields(e: ErrV) -> Seq<(Seq<char>, Val)> {
    let base = seq![("code"@, Val::Num(dec_int(e.code))), ("message"@, Val::Str(e.message))];
    match e.data {
        Some(d) => base.push(("data"@, d)),
        None => base,
    }
}

pub open spec fn err_val(e: ErrV) -> Val {
    Val::Obj(err_fields(e))
}

/// The fields of the JSON object that renders a response: `jsonrpc` and
/// `id` always, then `result` or `error` as present.
pub open spec fn resp_fields(r: RespV) -> Seq<(Seq<char>, Val)> {
    let base = seq![("jsonrpc"@, Val::Str(r.jsonrpc)), ("id"@, r.id)];
    let with_result = match r.result {
        Some(v) => base.push(("result"@, v)),
        None => base,
    };
    match r.error {
        Some(e) => with_result.push(("error"@, err_val(e))),
        None => with_result,
    }
}

pub open spec fn resp_val(r: RespV) -> Val {
    Val::Obj(resp_fields(r))
}

impl JsonRpcError {
    /// The JSON object for this error.
    pub fn to_json(&self) -> (r: Json)
        ensures
            r@ == err_val(self@),
    {
        let mut fields: Vec<(String, Json)> = Vec::new();
        fields.push((String::from_str("code"), Json::Num(int_to_string(self.code as i64))));
        fields.push((String::from_str("message"), Json::Str(self.message.clone())));
        match &self.data {
            Some(d) => {
                fields.push((String::from_str("data"), d.duplicate()));
            },
            None => {},
        }
        let r = Json::Obj(fields);
        proof {
            lemma_field_vals_of_index(fields@);
            assert(field_vals_of(fields@) =~= err_fields(self@));
        }
        r
    }
}

impl JsonRpcResponse {
    /// The JSON object for this response.
    pub fn to_json(&self) -> (r: Json)
        ensures
            r@ == resp_val(self@),
    {
        let mut fields: Vec<(String, Json)> = Vec::new();
        fields.push((String::from_str("jsonrpc"), Json::Str(self.jsonrpc.clone())));
        fields.push((String::from_str("id"), self.id.duplicate()));
        match &self.result {
            Some(v) => {
                fields.push((String::from_str("result"), v.duplicate()));
            },
            None => {},
        }
        match &self.error {
            Some(e) => {
                fields.push((String::from_str("error"), e.to_json()));
            },
            None => {},
        }
        let r = Json::Obj(fields);
        proof {
            lemma_field_vals_of_index(fields@);
            assert(field_vals_of(fields@) =~= resp_fields(self@));
        }
        r
    }
}

/// Builders for JSON-RPC responses.
pub struct ResponseBuilder;

impl ResponseBuilder {
    /// A successful response with the given result.
    pub fn success(id: Json, result: Json) -> (r: JsonRpcResponse)
        ensures
            r@ == resp_success(id@, result@),
    {
        JsonRpcResponse {
            jsonrpc: String::from_str("2.0"),
            result: Some(result),
            error: None,
            id,
        }
    }

    /// An error response.
    pub fn error(id: Json, code: i32, message: String) -> (r: JsonRpcResponse)
        ensures
            r@ == resp_error(id@, code as int, message@),
    {
        JsonRpcResponse {
            jsonrpc: String::from_str("2.0"),
            result: None,
            error: Some(JsonRpcError { code, message, data: None }),
            id,
        }
    }

    /// An error response with additional data.
    pub fn error_with_data(id: Json, code: i32, message: String, data: Json) -> (r:
        JsonRpcResponse)
        ensures
            r@ == (RespV {
                jsonrpc: "2.0"@,
                result: None,
                error: Some(ErrV { code: code as int, message: message@, data: Some(data@) }),
                id: id@,
            }),
    {
        JsonRpcResponse {
            jsonrpc: String::from_str("2.0"),
            result: None,
            error: Some(JsonRpcError { code, message, data: Some(data) }),
            id,
        }
    }

    /// The method-not-found error for an unrecognized method name.
    pub fn method_not_found(id: Json, method: &str) -> (r: JsonRpcResponse)
        ensures
            r@ == resp_error(
                id@,
                METHOD_NOT_FOUND as int,
                "Method '"@ + method@ + "' not found"@,
            ),
    {
        let mut message = String::from_str("Method '");
        message.append(method);
        message.append("' not found");
        Self::error(id, METHOD_NOT_FOUND, message)
    }

    /// An internal error response.
    pub fn internal_error(id: Json, message: String) -> (r: JsonRpcResponse)
        ensures
            r@ == resp_error(id@, INTERNAL_ERROR as int, message@),
    {
        Self::error(id, INTERNAL_ERROR, message)
    }

    /// An invalid-params error response.
    pub fn invalid_params(id: Json, message: String) -> (r: JsonRpcResponse)
        ensures
            r@ == resp_error(id@, INVALID_PARAMS as int, message@),
    {
        Self::error(id, INVALID_PARAMS, message)
    }

    /// The parse-error response (its id is the placeholder `0`).
    pub fn parse_error() -> (r: JsonRpcResponse)
        ensures
            r@ == resp_error(Val::Num("0"@), PARSE_ERROR as int, "Parse error"@),
    {
        Self::error(Json::Num(String::from_str("0")), PARSE_ERROR, String::from_str("Parse error"))
    }

    /// The internal marker object that signals a suppressed response.
    pub fn notification_ack() -> (r: Json)
        ensures
            r@ == Val::Obj(seq![("_skip_response"@, Val::Bool(true))]),
    {
        let mut fields: Vec<(String, Json)> = Vec::new();
        fields.push((String::from_str("_skip_response"), Json::Bool(true)));
        let r = Json::Obj(fields);
        proof {
            lemma_field_vals_of_index(fields@);
            assert(field_vals_of(fields@) =~= seq![("_skip_response"@, Val::Bool(true))]);
        }
        r
    }
}

/// An optional field of the request envelope: an explicit `null` counts
/// as absent, exactly as the envelope's optional fields deserialize — in
/// particular, a request whose `id` is `null` parses as a notification.
pub open spec fn opt_field(v: Val, key: Seq<char>) -> Option<Val> {
    match val_get(v, key) {
        Some(Val::Null) => None,
        other => other,
    }
}

/// Reads a JSON-RPC request out of a parsed JSON value.  A request must
/// carry string `jsonrpc` and `method` fields; `params` and `id` are
/// optional, with an explicit `null` counting as absent.
pub fn parse_request(v: &Json) -> (r: Result<JsonRpcRequest, String>)
    ensures
        match r {
            Ok(req) => val_get_str(v@, "jsonrpc"@) is Some && val_get_str(v@, "method"@) is Some
                && req@ == (ReqV {
                jsonrpc: val_get_str(v@, "jsonrpc"@)->0,
                method: val_get_str(v@, "method"@)->0,
                params: opt_field(v@, "params"@),
                id: opt_field(v@, "id"@),
            }),
            Err(m) => (val_get_str(v@, "jsonrpc"@) is None || val_get_str(v@, "method"@) is None)
                && m@ == "Failed to parse JSON-RPC request: not a request object"@,
        },
{
    let jsonrpc = match v.get_str("jsonrpc") {
        Some(s) => s.clone(),
        None => {
            return Err(String::from_str("Failed to parse JSON-RPC request: not a request object"));
        },
    };
    let method = match v.get_str("method") {
        Some(s) => s.clone(),
        None => {
            return Err(String::from_str("Failed to parse JSON-RPC request: not a request object"));
        },
    };
    let params = match v.get("params") {
        Some(Json::Null) => None,
        Some(p) => Some(p.duplicate()),
        None => None,
    };
    let id = match v.get("id") {
        Some(Json::Null) => None,
        Some(i) => Some(i.duplicate()),
        None => None,
    };
    Ok(JsonRpcRequest { jsonrpc, method, params, id })
}

/// Renders a response as its wire line.
pub fn serialize_response(response: &JsonRpcResponse) -> (r: String)
    ensures
        r@ == text_of(resp_val(response@)),
{
    response.to_json().to_text()
}

/// A request without an id is a notification.  `parse_request` maps an
/// explicit `null` id to an absent one, so this covers both wire forms
/// of a notification.
pub fn is_notification(request: &JsonRpcRequest) -> (r: bool)
    ensures
        r == (request@.id is None),
{
    match &request.id {
        None => true,
        Some(_) => false,
    }
}

/// The id a response may carry: never absent and never `null`; both are
/// replaced by the number `0`.
pub open spec fn spec_valid_id(id: Option<Val>) -> Val {
    match id {
        Some(v) => if v is Null {
            Val::Num("0"@)
        } else {
            v
        },
        None => Val::Num("0"@),
    }
}

/// Replaces an absent or `null` id by the number `0`.
pub fn ensure_valid_id(id: Option<Json>) -> (r: Json)
    ensures
        r@ == spec_valid_id(opt_val(id)),
{
    match id {
        Some(Json::Null) => Json::Num(String::from_str("0")),
        Some(j) => j,
        None => Json::Num(String::from_str("0")),
    }
}

} // verus!

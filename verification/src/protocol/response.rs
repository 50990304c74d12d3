//! The unified result of handling one request: either a response to send
//! or the acknowledgment that a notification needs none.

use vstd::prelude::*;

use crate::json::Json;
use crate::protocol::{
    serialize_response, resp_error, resp_success, resp_val, JsonRpcResponse, RespV, ResponseBuilder,
};
use crate::render::text_of;

verus! {

/// What a handler produced: a response to write, or nothing (the request
/// was a notification).
#[derive(Debug, PartialEq)]
pub enum HandlerResponse {
    Response(JsonRpcResponse),
    NotificationAck,
}

/// Model of a handler outcome.
#[verifier::ext_equal]
pub enum HandlerResponseV {
    Response(RespV),
    NotificationAck,
}

impl View for HandlerResponse {
    type V = HandlerResponseV;

    open spec fn view(&self) -> HandlerResponseV {
        match self {
            HandlerResponse::Response(r) => HandlerResponseV::Response(r@),
            HandlerResponse::NotificationAck => HandlerResponseV::NotificationAck,
        }
    }
}

impl HandlerResponse {
    /// A successful response.
    pub fn success(id: Json, result: Json) -> (r: Self)
        ensures
            r@ == HandlerResponseV::Response(resp_success(id@, result@)),
    {
        HandlerResponse::Response(ResponseBuilder::success(id, result))
    }

    /// An error response.
    pub fn error(id: Json, code: i32, message: String) -> (r: Self)
        ensures
            r@ == HandlerResponseV::Response(resp_error(id@, code as int, message@)),
    {
        HandlerResponse::Response(ResponseBuilder::error(id, code, message))
    }

    /// The no-response outcome for a notification.
    pub fn notification_ack() -> (r: Self)
        ensures
            r@ == HandlerResponseV::NotificationAck,
    {
        HandlerResponse::NotificationAck
    }

    /// Whether this outcome suppresses the response.
    pub fn is_notification_ack(&self) -> (r: bool)
        ensures
            r == (self@ is NotificationAck),
    {
        match self {
            HandlerResponse::NotificationAck => true,
            HandlerResponse::Response(_) => false,
        }
    }

    /// The wire text of this outcome: the serialized response, or the
    /// empty string when nothing is to be sent.
    pub fn to_string(&self) -> (r: String)
        ensures
            match self@ {
                HandlerResponseV::Response(resp) => r@ == text_of(resp_val(resp)),
                HandlerResponseV::NotificationAck => r@ == Seq::<char>::empty(),
            },
    {
        match self {
            HandlerResponse::Response(resp) => serialize_response(resp),
            HandlerResponse::NotificationAck => String::new(),
        }
    }
}

} // verus!

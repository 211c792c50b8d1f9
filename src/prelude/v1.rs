//! JSON-RPC 1.0: envelopes, builders, and the items they are made from.

pub use crate::codec::{frame, split, verify};
pub use crate::database::{ConnectionPool, UserDatabase};
pub use crate::error::{ErrorMsg, ServerError};
pub use crate::jsonrpc::v1::{ReqBody, RespBody};
pub use crate::{BinaryOps, JsonInternal, Method, Param};

use vstd::prelude::*;
use vstd::string::*;

use crate::database::reply_view;
use crate::error::{message_of, Fault};
use crate::jsonrpc::v1::{ReqView, RespView};
use crate::method_name;

verus! {

/// Composes a JSON-RPC 1.0 request; the framed payload ends with the
/// little-endian CRC-32 of the serialised body.
pub struct RequestBuilder {
    body: ReqBody,
}

impl View for RequestBuilder {
    type V = ReqView;

    closed spec fn view(&self) -> ReqView {
        self.body@
    }
}

impl RequestBuilder {
    /// A request for `method` with `params` and correlation id `id`.
    pub fn new(method: Method, params: Vec<String>, id: usize) -> (r: Self)
        ensures
            r@ == (ReqView {
                jsonrpc: "1.0"@,
                method: method_name(method),
                params: params@.map_values(|p: String| p@),
                id,
            }),
    {
        RequestBuilder {
            body: ReqBody { jsonrpc: String::from_str("1.0"), method: method.name(), params, id },
        }
    }

    /// Starts from a request body read elsewhere.
    pub fn from_body(body: ReqBody) -> (r: Self)
        ensures
            r@ == body@,
    {
        RequestBuilder { body }
    }

    /// The request body.
    pub fn into_body(self) -> (r: ReqBody)
        ensures
            r@ == self@,
    {
        self.body
    }
}

/// Composes a JSON-RPC 1.0 response; exactly one of its result and error is present.
pub struct ResponseBuilder {
    body: RespBody,
}

impl View for ResponseBuilder {
    type V = RespView;

    closed spec fn view(&self) -> RespView {
        self.body@
    }
}

/// The response that answers request `id` with a transaction's reply.
pub open spec fn response_of(reply: Result<Option<Seq<char>>, Fault>, id: usize) -> RespView {
    match reply {
        Ok(Some(t)) => RespView { result: Some(t), error: None, id },
        Ok(None) => RespView { result: Some("success"@), error: None, id },
        Err(f) => RespView { result: None, error: Some(message_of(f)), id },
    }
}

impl ResponseBuilder {
    /// A response carrying `result`.
    pub fn new(result: String, id: usize) -> (r: Self)
        ensures
            r@ == (RespView { result: Some(result@), error: None, id }),
            r@.wf(),
    {
        ResponseBuilder { body: RespBody { result: Some(result), error: None, id } }
    }

    /// The acknowledgement of an operation that gives no value.
    pub fn success(id: usize) -> (r: Self)
        ensures
            r@ == (RespView { result: Some("success"@), error: None, id }),
            r@.wf(),
    {
        ResponseBuilder { body: RespBody { result: Some(String::from_str("success")), error: None, id } }
    }

    /// A response carrying the error message `msg`.
    pub fn error(msg: ErrorMsg, id: usize) -> (r: Self)
        ensures
            r@ == (RespView { result: None, error: Some(msg@), id }),
            r@.wf(),
    {
        ResponseBuilder { body: RespBody { result: None, error: Some(msg.into_inner()), id } }
    }

    /// The response to request `id` for a transaction's reply: its value, the
    /// acknowledgement, or the client-safe message of its error.
    pub fn from_reply(reply: Result<Option<String>, ServerError>, id: usize) -> (r: Self)
        ensures
            r@ == response_of(reply_view(reply), id),
            r@.wf(),
    {
        match reply {
            Ok(Some(t)) => ResponseBuilder::new(t, id),
            Ok(None) => ResponseBuilder::success(id),
            Err(e) => ResponseBuilder::error(ErrorMsg::from_error(e), id),
        }
    }

    /// Starts from a response body read elsewhere; `None` unless exactly one of
    /// its result and error is present.
    pub fn from_body(body: RespBody) -> (r: Option<Self>)
        ensures
            r is Some <==> body@.wf(),
            r matches Some(b) ==> b@ == body@,
    {
        if body.result.is_some() != body.error.is_some() {
            Some(ResponseBuilder { body })
        } else {
            None
        }
    }

    /// The response body.
    pub fn into_body(self) -> (r: RespBody)
        ensures
            r@ == self@,
    {
        self.body
    }
}

} // verus!

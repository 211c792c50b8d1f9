//! The JSON-RPC 1.0 request and response objects.

use vstd::prelude::*;

use crate::error::ServerError;
use crate::{resolve_params, JsonInternal, Method, Param};

verus! {

/// The JSON-RPC 1.0 request object.
#[derive(Debug, Clone)]
pub struct ReqBody {
    /// The protocol version, "1.0".
    pub jsonrpc: String,
    /// The name of the method to invoke.
    pub method: String,
    /// The parameters of the method, in order.
    pub params: Vec<String>,
    /// The correlation id chosen by the client.
    pub id: usize,
}

/// The JSON-RPC 1.0 response object.
#[derive(Debug, Clone)]
pub struct RespBody {
    /// Present on success, absent on error.
    pub result: Option<String>,
    /// Present on error, absent on success.
    pub error: Option<String>,
    /// The id of the request answered.
    pub id: usize,
}

/// The mathematical view of a [`ReqBody`].
pub struct ReqView {
    pub jsonrpc: Seq<char>,
    pub method: Seq<char>,
    pub params: Seq<Seq<char>>,
    pub id: usize,
}

/// The mathematical view of a [`RespBody`].
pub struct RespView {
    pub result: Option<Seq<char>>,
    pub error: Option<Seq<char>>,
    pub id: usize,
}

/// The view of an optional text.
pub open spec fn opt_view(s: Option<String>) -> Option<Seq<char>> {
    match s {
        Some(t) => Some(t@),
        None => None,
    }
}

impl View for ReqBody {
    type V = ReqView;

    open spec fn view(&self) -> ReqView {
        ReqView {
            jsonrpc: self.jsonrpc@,
            method: self.method@,
            params: self.params@.map_values(|p: String| p@),
            id: self.id,
        }
    }
}

impl View for RespBody {
    type V = RespView;

    open spec fn view(&self) -> RespView {
        RespView { result: opt_view(self.result), error: opt_view(self.error), id: self.id }
    }
}

impl RespView {
    /// Exactly one of `result` and `error` is present.
    pub open spec fn wf(&self) -> bool {
        self.result is Some != self.error is Some
    }
}

impl JsonInternal for ReqBody {
    open spec fn method_text(&self) -> Seq<char> {
        self.method@
    }

    open spec fn param_texts(&self) -> Seq<Seq<char>> {
        self.params@.map_values(|p: String| p@)
    }

    fn parse_method(&self) -> (r: Result<Method, ServerError>) {
        Method::parse(&self.method)
    }

    fn parse_params(&self) -> (r: Vec<Param>) {
        resolve_params(&self.params)
    }
}

} // verus!

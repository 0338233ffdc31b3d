//! The `http/request` capability.

pub mod body_stream;
pub mod headers;
pub mod request;
pub mod url;

use vstd::prelude::*;
use vstd::string::*;

verus! {

/// One header of a request or a response.
#[derive(Clone, Debug, PartialEq, Eq)]
pub struct HttpHeader {
    pub name: String,
    pub value: String,
}

impl View for HttpHeader {
    type V = (Seq<char>, Seq<char>);

    open spec fn view(&self) -> Self::V {
        (self.name@, self.value@)
    }
}

/// The kind of a JSON-RPC error.
#[derive(Clone, Copy, Debug, PartialEq, Eq, Structural)]
pub enum RpcErrorCode {
    /// The parameters of the call were not acceptable.
    InvalidParams,
    /// The call was acceptable and did not succeed.
    InternalError,
}

/// The error of an `http/request` call.
#[derive(Clone, Debug, PartialEq, Eq)]
pub struct JSONRPCErrorError {
    pub code: RpcErrorCode,
    pub message: String,
}

impl View for JSONRPCErrorError {
    type V = (RpcErrorCode, Seq<char>);

    open spec fn view(&self) -> Self::V {
        (self.code, self.message@)
    }
}

/// An error about the caller's parameters.
pub fn invalid_params(message: String) -> (error: JSONRPCErrorError)
    ensures
        error@ == (RpcErrorCode::InvalidParams, message@),
{
    JSONRPCErrorError { code: RpcErrorCode::InvalidParams, message }
}

/// An error of the call itself.
pub fn internal_error(message: String) -> (error: JSONRPCErrorError)
    ensures
        error@ == (RpcErrorCode::InternalError, message@),
{
    JSONRPCErrorError { code: RpcErrorCode::InternalError, message }
}

} // verus!

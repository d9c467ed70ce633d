//! The gateway's failure taxonomy, and the protocol-level error object
//! that replies carry.

use vstd::prelude::*;
use vstd::string::StringExecFns;
use crate::json::JsonValue;

verus! {

/// A failure inside the gateway itself.
#[derive(Debug)]
pub enum Error {
    /// The current wallet could not produce a signer for the requested
    /// chain (disconnected, locked, or unsupported chain).
    SignerBuild(String),
    /// A chain id that no configured network carries.
    NetworkNotFound(u32),
    /// The approver rejected the transaction.
    ApprovalRejected,
    /// The approval channel closed before a decision arrived.
    ApprovalChannelClosed,
}

impl Error {
    /// The text under which this failure surfaces to clients.
    pub open spec fn message_spec(&self) -> Seq<char> {
        match self {
            Error::SignerBuild(m) => m@,
            Error::NetworkNotFound(_) => "network not found"@,
            Error::ApprovalRejected => "transaction rejected"@,
            Error::ApprovalChannelClosed => "approval channel closed"@,
        }
    }

    pub fn message(&self) -> (r: String)
        ensures
            r@ == self.message_spec(),
    {
        match self {
            Error::SignerBuild(m) => m.clone(),
            Error::NetworkNotFound(_) => String::from_str("network not found"),
            Error::ApprovalRejected => String::from_str("transaction rejected"),
            Error::ApprovalChannelClosed => String::from_str("approval channel closed"),
        }
    }
}

/// A structured protocol-level error: code, message and optional data,
/// as the wire protocol's error object carries them.
#[derive(Debug, PartialEq)]
pub struct JsonRpcError {
    pub code: i64,
    pub message: String,
    pub data: Option<JsonValue>,
}

impl JsonRpcError {
    /// A malformed or unparsable request envelope or upstream reply.
    pub fn invalid_request() -> (e: Self)
        ensures
            e.code == -32600,
            e.message@ == "Invalid request"@,
            e.data is None,
    {
        JsonRpcError { code: -32600, message: String::from_str("Invalid request"), data: None }
    }

    /// Malformed input to a locally handled method.
    pub fn invalid_params(message: String) -> (e: Self)
        ensures
            e.code == -32602,
            e.message == message,
            e.data is None,
    {
        JsonRpcError { code: -32602, message, data: None }
    }

    /// Any unclassified internal failure.
    pub fn internal_error() -> (e: Self)
        ensures
            e.code == -32603,
            e.message@ == "Internal error"@,
            e.data is None,
    {
        JsonRpcError { code: -32603, message: String::from_str("Internal error"), data: None }
    }

    /// An explicit structured error from the upstream node, passed
    /// through with its code, message and data unchanged.
    pub fn server_error(code: i64, message: String, data: Option<JsonValue>) -> (e: Self)
        ensures
            e.code == code,
            e.message == message,
            e.data == data,
    {
        JsonRpcError { code, message, data }
    }
}

} // verus!

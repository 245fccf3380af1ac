//! The errors of the client core, and how an unexpected response becomes one.

use vstd::prelude::*;

use crate::proto::ClientResp;

verus! {

/// Every failure the client core reports. All of them are values handed back
/// to a caller; none aborts the process.
#[derive(Clone, Debug, PartialEq)]
pub enum ClientError {
    /// A response envelope arrived without its payload.
    Malformed,
    /// `unsubscribe` named an id that holds no persistent subscription.
    UnknownSubscription(u32),
    /// The response answered with a payload of another operation.
    UnexpectedResponse(ClientResp),
    /// The remote engine reported a failure (bad column, deleted resource, ...).
    ServerError(String),
    /// A request was rejected locally before anything was sent.
    Internal(String),
    /// The operation is not offered by this client.
    NotImplemented(String),
    /// A schema named a column type that does not exist.
    UnknownColumnType(String),
    /// A schema named the same column twice.
    DuplicateColumn(String),
    /// The client has handed out every correlation id it can represent.
    IdsExhausted,
    /// A registered handler could not deliver its response.
    Callback(String),
}

pub type ClientResult<T> = Result<T, ClientError>;

/// The error that a response yields when it is not the one the caller expected.
pub open spec fn response_error(resp: ClientResp) -> ClientError {
    match resp {
        ClientResp::ServerError { message } => ClientError::ServerError(message),
        _ => ClientError::UnexpectedResponse(resp),
    }
}

impl ClientError {
    /// Turns a response that does not answer the request into an error:
    /// a remote failure keeps its message, anything else is "unexpected".
    pub fn from_response(resp: ClientResp) -> (r: ClientError)
        ensures
            r == response_error(resp),
    {
        match resp {
            ClientResp::ServerError { message } => ClientError::ServerError(message),
            other => ClientError::UnexpectedResponse(other),
        }
    }
}

} // verus!

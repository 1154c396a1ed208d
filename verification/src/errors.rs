//! The failure taxonomy of the client.

use vstd::prelude::*;

verus! {

/// Every failure the core can report. Transport-level failures, rejections
/// by the server, malformed responses, signing-tool failures, filesystem
/// failures and the absence of a stored token are kept apart so that the
/// caller can react to each.
#[derive(Clone, Debug)]
pub enum CoreError {
    /// The request never completed: connection, timeout, transport.
    NetworkError(String),
    /// The server answered with a non-success status; the payload is its body.
    ServerRejected(String),
    /// The response arrived but could not be understood.
    ParseError(String),
    /// The signing tool was missing, failed, or produced no output.
    SigningError(String),
    /// Reading or writing local state failed.
    StorageError(String),
    /// No token is stored: the operator has not logged in.
    NotAuthenticated,
}

impl CoreError {
    /// The text shown for this failure.
    pub open spec fn message_of(self) -> Seq<char> {
        match self {
            CoreError::NetworkError(m) => m@,
            CoreError::ServerRejected(m) => m@,
            CoreError::ParseError(m) => m@,
            CoreError::SigningError(m) => m@,
            CoreError::StorageError(m) => m@,
            CoreError::NotAuthenticated => "Токен не найден"@,
        }
    }

    /// Renders the failure for the operator.
    pub fn message(&self) -> (r: String)
        ensures
            r@ == self.message_of(),
    {
        match self {
            CoreError::NetworkError(m) => m.clone(),
            CoreError::ServerRejected(m) => m.clone(),
            CoreError::ParseError(m) => m.clone(),
            CoreError::SigningError(m) => m.clone(),
            CoreError::StorageError(m) => m.clone(),
            CoreError::NotAuthenticated => String::from_str("Токен не найден"),
        }
    }
}

} // verus!

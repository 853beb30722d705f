//! The error taxonomy of the login flow.
//!
//! Four kinds of failure exist: the logon page did not yield a session
//! (`NoSession`), the credentials were rejected (`InvalidLogin`), a request
//! failed at the transport level (`NetworkError`, carrying the transport's own
//! message), and a credential was never supplied (`MissingConfig`).

use vstd::prelude::*;

verus! {

/// Failures decided from the content of a portal response.
#[derive(Debug, Clone, Copy, PartialEq, Eq, Structural)]
pub enum AspenError {
    /// The logon page matched neither extraction pattern, or a pattern
    /// matched with an empty capture.
    NoSession,
    /// The login response reported that the credentials were rejected.
    InvalidLogin,
}

/// Every way the flow can fail.
#[derive(Debug, PartialEq, Eq)]
pub enum ProjError {
    /// A failure decided from response content.
    Aspen(AspenError),
    /// A transport-level failure; the payload is the transport's message.
    NetworkError(String),
    /// A required credential was absent before any request was made.
    MissingConfig,
}

impl AspenError {
    /// A human-readable description of the error.
    pub fn message(&self) -> (r: String)
        ensures
            self is NoSession ==> r@ == "NoSession Error, Invalid Response Returned"@,
            self is InvalidLogin ==> r@ == "InvalidLogin Error, Please Try Again"@,
    {
        match self {
            AspenError::NoSession => "NoSession Error, Invalid Response Returned".to_owned(),
            AspenError::InvalidLogin => "InvalidLogin Error, Please Try Again".to_owned(),
        }
    }
}

impl ProjError {
    /// A human-readable description of the error kind.
    pub fn message(&self) -> (r: String)
        ensures
            self is Aspen ==> r@ == "AspenError"@,
            self is NetworkError ==> r@ == "Network error"@,
            self is MissingConfig ==> r@ == "Missing configuration"@,
    {
        match self {
            ProjError::Aspen(_) => "AspenError".to_owned(),
            ProjError::NetworkError(_) => "Network error".to_owned(),
            ProjError::MissingConfig => "Missing configuration".to_owned(),
        }
    }
}

} // verus!

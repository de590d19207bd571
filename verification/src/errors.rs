//! Error taxonomy of the client.
//!
//! Session handling and network operations fail in distinct, enumerable
//! ways; callers render them as flat strings.

use vstd::prelude::*;

verus! {

/// Failure while importing or restoring a cookie session.
#[derive(PartialEq, Eq, Structural, Debug)]
pub enum SessionError {
    /// The input bytes did not decode as a sequence of cookie records.
    Malformed,
    /// The records decoded, but the session-identifier cookie or the
    /// CSRF cookie was missing.
    IncompleteCredentials,
    /// No previously saved session exists at the fixed cache path.
    NoSavedSession,
}

impl SessionError {
    /// Flat string rendering surfaced to the operator.
    pub fn message(&self) -> String {
        match self {
            SessionError::Malformed => "Invalid cookies file: could not decode records".to_owned(),
            SessionError::IncompleteCredentials => "Invalid cookies file: missing sessionid or csrftoken".to_owned(),
            SessionError::NoSavedSession => "No saved session found".to_owned(),
        }
    }
}

/// Failure of a network-backed operation.
#[derive(PartialEq, Eq, Debug)]
pub enum NetError {
    /// The transport failed before a response arrived.
    Transport(String),
    /// The server answered with a non-success HTTP status.
    HttpStatus(u16),
    /// The response body could not be decoded as JSON.
    Decode,
    /// A well-formed response lacked the field the operation needed.
    NotFound,
    /// A mutating action was attempted without a loaded session.
    SessionRequired,
}

impl NetError {
    /// Flat string rendering surfaced to the operator.
    pub fn message(&self) -> String {
        match self {
            NetError::Transport(s) => "Transport failure: ".to_owned().concat(s.as_str()),
            NetError::HttpStatus(_) => "Request failed with an error status".to_owned(),
            NetError::Decode => "Response body was not valid JSON".to_owned(),
            NetError::NotFound => "Expected field absent from response".to_owned(),
            NetError::SessionRequired => "Session not loaded".to_owned(),
        }
    }
}

} // verus!

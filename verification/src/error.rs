//! Notary error types.

use vstd::prelude::*;

use crate::text::{concat2, concat3, decimal, decimal_of};

verus! {

/// Errors from the notary service.
#[derive(Debug)]
pub enum NotaryError {
    /// The target hostname is not in the allowlist.
    HostnameNotAllowed(String),
    /// Too many concurrent sessions.
    TooManySessions(usize),
    /// The session was not found.
    SessionNotFound(String),
    /// The session is in the wrong state for the requested operation.
    WrongState {
        /// The session ID.
        id: String,
        /// Current state.
        state: String,
        /// Expected state.
        expected: String,
    },
    /// Failed to fetch the target URL.
    FetchFailed(String),
    /// The target server returned a non-success status code.
    TargetError {
        /// HTTP status code.
        status: u16,
        /// Response body (truncated).
        body: String,
    },
    /// Failed to extract fields from the response.
    ExtractionFailed(String),
    /// Cryptographic signing failed.
    SigningFailed(String),
    /// Session has expired.
    SessionExpired(String),
    /// The template was not found.
    TemplateNotFound(String),
}

impl NotaryError {
    /// The text of this error.
    pub open spec fn spec_message(&self) -> Seq<char> {
        match self {
            NotaryError::HostnameNotAllowed(h) => "hostname not allowed: "@ + h@,
            NotaryError::TooManySessions(n) => "max concurrent sessions ("@ + decimal_of(*n as nat)
                + ") reached"@,
            NotaryError::SessionNotFound(id) => "session not found: "@ + id@,
            NotaryError::WrongState { id, state, expected } => "session "@ + id@ + " in state "@
                + state@ + ", expected "@ + expected@,
            NotaryError::FetchFailed(m) => "fetch failed: "@ + m@,
            NotaryError::TargetError { status, body } => "target returned HTTP "@ + decimal_of(
                *status as nat,
            ) + ": "@ + body@,
            NotaryError::ExtractionFailed(m) => "field extraction failed: "@ + m@,
            NotaryError::SigningFailed(m) => "signing failed: "@ + m@,
            NotaryError::SessionExpired(id) => "session "@ + id@ + " has expired"@,
            NotaryError::TemplateNotFound(id) => "template not found: "@ + id@,
        }
    }

    /// The human-readable text of this error.
    pub fn message(&self) -> (text: String)
        ensures
            text@ == self.spec_message(),
    {
        match self {
            NotaryError::HostnameNotAllowed(h) => concat2("hostname not allowed: ", h.as_str()),
            NotaryError::TooManySessions(n) => {
                let digits = decimal(*n as u64);
                concat3("max concurrent sessions (", digits.as_str(), ") reached")
            },
            NotaryError::SessionNotFound(id) => concat2("session not found: ", id.as_str()),
            NotaryError::WrongState { id, state, expected } => {
                let mut text = concat3("session ", id.as_str(), " in state ");
                text.append(state.as_str());
                text.append(", expected ");
                text.append(expected.as_str());
                text
            },
            NotaryError::FetchFailed(m) => concat2("fetch failed: ", m.as_str()),
            NotaryError::TargetError { status, body } => {
                let digits = decimal(*status as u64);
                let mut text = concat3("target returned HTTP ", digits.as_str(), ": ");
                text.append(body.as_str());
                text
            },
            NotaryError::ExtractionFailed(m) => concat2("field extraction failed: ", m.as_str()),
            NotaryError::SigningFailed(m) => concat2("signing failed: ", m.as_str()),
            NotaryError::SessionExpired(id) => concat3("session ", id.as_str(), " has expired"),
            NotaryError::TemplateNotFound(id) => concat2("template not found: ", id.as_str()),
        }
    }
}

} // verus!

//! HTTP-level outcomes of the subscription workflow.
//!
//! The workflow itself never touches a socket: it reports one of the status
//! codes below, and the surrounding HTTP layer turns it into a response.

use vstd::prelude::*;

verus! {

/// The four outcomes the subscription endpoints can report.
#[derive(Clone, Copy, Debug, PartialEq, Eq, Structural)]
pub enum HttpStatus {
    /// The request was handled in full (200).
    Success,
    /// The input was rejected: malformed field or store conflict (400).
    BadRequest,
    /// The confirmation token is unknown (404).
    NotFound,
    /// A store round-trip or the notifier failed (500).
    InternalServerError,
}

impl HttpStatus {
    /// The numeric HTTP status code this outcome stands for.
    pub fn code(&self) -> (c: u16)
        ensures
            c == self.spec_code(),
    {
        match self {
            HttpStatus::Success => 200,
            HttpStatus::BadRequest => 400,
            HttpStatus::NotFound => 404,
            HttpStatus::InternalServerError => 500,
        }
    }

    /// The numeric code, for use in contracts.
    pub open spec fn spec_code(&self) -> u16 {
        match self {
            HttpStatus::Success => 200,
            HttpStatus::BadRequest => 400,
            HttpStatus::NotFound => 404,
            HttpStatus::InternalServerError => 500,
        }
    }
}

} // verus!

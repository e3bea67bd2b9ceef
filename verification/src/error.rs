//! The ways in which a response can be turned down.

use vstd::prelude::*;

verus! {

/// What can go wrong once a response has arrived.
#[derive(Clone, Copy, Debug, PartialEq, Eq, Structural)]
pub enum GrowattError {
    /// The login envelope reports failure or cannot be read.
    AuthenticationFailure,
    /// A data endpoint's envelope reports failure or cannot be read.
    RequestFailure,
    /// A header is not text, the body is not JSON, an expected member is
    /// absent, or a number written as a string does not parse.
    MalformedResponse,
}

impl GrowattError {
    /// The text that describes each error.
    pub open spec fn message_spec(self) -> Seq<char> {
        match self {
            GrowattError::AuthenticationFailure => "Missing success field"@,
            GrowattError::RequestFailure => "Succeed false"@,
            GrowattError::MalformedResponse => "Malformed response"@,
        }
    }

    /// A short human-readable description of the error.
    pub fn message(&self) -> (text: &'static str)
        ensures
            text@ == self.message_spec(),
    {
        match self {
            GrowattError::AuthenticationFailure => "Missing success field",
            GrowattError::RequestFailure => "Succeed false",
            GrowattError::MalformedResponse => "Malformed response",
        }
    }
}

} // verus!

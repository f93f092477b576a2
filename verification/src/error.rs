//! The ways in which answering a request can fail.

use vstd::prelude::*;

verus! {

/// Why a request could not be answered with an image or its address.
#[derive(Clone, Copy, Debug, PartialEq, Eq, Structural)]
pub enum RelayError {
    /// The query string of the request could not be understood.
    BadRequest,
    /// The upstream service could not be reached.
    UpstreamUnavailable,
    /// The upstream service answered with something other than the expected document.
    UpstreamMalformed,
    /// The relay itself was driven in a way it does not expect.
    Internal,
}

impl RelayError {
    /// The HTTP status that reports this failure.
    pub open spec fn spec_status(self) -> u16 {
        match self {
            RelayError::BadRequest => 400,
            RelayError::UpstreamUnavailable => 502,
            RelayError::UpstreamMalformed => 502,
            RelayError::Internal => 500,
        }
    }

    /// The short text sent to the client with this failure.
    pub open spec fn spec_message(self) -> Seq<char> {
        match self {
            RelayError::BadRequest => "bad request"@,
            RelayError::UpstreamUnavailable => "upstream unavailable"@,
            RelayError::UpstreamMalformed => "upstream malformed"@,
            RelayError::Internal => "internal error"@,
        }
    }

    /// The HTTP status that reports this failure.
    pub fn status(&self) -> (r: u16)
        ensures
            r == self.spec_status(),
            400 <= r < 600,
    {
        match self {
            RelayError::BadRequest => 400,
            RelayError::UpstreamUnavailable => 502,
            RelayError::UpstreamMalformed => 502,
            RelayError::Internal => 500,
        }
    }

    /// The short text sent to the client with this failure.
    pub fn message(&self) -> (r: &'static str)
        ensures
            r@ == self.spec_message(),
    {
        match self {
            RelayError::BadRequest => "bad request",
            RelayError::UpstreamUnavailable => "upstream unavailable",
            RelayError::UpstreamMalformed => "upstream malformed",
            RelayError::Internal => "internal error",
        }
    }
}

} // verus!

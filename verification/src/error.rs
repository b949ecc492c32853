//! The failures a request can end in.

use vstd::prelude::*;

verus! {

/// Why a request was not served.
#[derive(Debug, Clone, Copy, PartialEq, Eq, Structural)]
pub enum ServiceError {
    /// No record carries the requested identifier.
    NotFound,
    /// The request body does not decode into a record.
    MalformedPayload,
    /// The request body is larger than the ceiling.
    PayloadTooLarge,
    /// The connection failed while the body was being received.
    TransportIO,
}

impl ServiceError {
    /// The HTTP status that reports this failure to the client.
    pub open spec fn spec_status_code(self) -> u16 {
        match self {
            ServiceError::NotFound => 404,
            ServiceError::MalformedPayload => 400,
            ServiceError::PayloadTooLarge => 400,
            ServiceError::TransportIO => 400,
        }
    }

    /// The HTTP status that reports this failure to the client: always a
    /// client error, and 404 exactly for a missing record.
    #[verifier::when_used_as_spec(spec_status_code)]
    pub fn status_code(self) -> (code: u16)
        ensures
            code == self.spec_status_code(),
            400 <= code < 500,
            code == 404 <==> self == ServiceError::NotFound,
    {
        match self {
            ServiceError::NotFound => 404,
            ServiceError::MalformedPayload => 400,
            ServiceError::PayloadTooLarge => 400,
            ServiceError::TransportIO => 400,
        }
    }

    /// The words that go with this failure.
    pub open spec fn spec_reason(self) -> Seq<char> {
        match self {
            ServiceError::NotFound => "not found"@,
            ServiceError::MalformedPayload => "malformed payload"@,
            ServiceError::PayloadTooLarge => "overflow"@,
            ServiceError::TransportIO => "transport error"@,
        }
    }

    /// The words that go with this failure, for the body of the response.
    pub fn reason(self) -> (text: String)
        ensures
            text@ == self.spec_reason(),
    {
        match self {
            ServiceError::NotFound => "not found".to_owned(),
            ServiceError::MalformedPayload => "malformed payload".to_owned(),
            ServiceError::PayloadTooLarge => "overflow".to_owned(),
            ServiceError::TransportIO => "transport error".to_owned(),
        }
    }
}

} // verus!

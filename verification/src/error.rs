//! The failure taxonomy and the status that goes with each kind.

use vstd::prelude::*;

verus! {

/// The transport status paired with a response.
#[derive(Clone, Copy, Debug, PartialEq, Eq, Structural)]
pub enum StatusCode {
    Success,
    BadRequest,
    InternalServerError,
}

impl StatusCode {
    /// The numeric code of this status.
    pub open spec fn spec_code(self) -> u16 {
        match self {
            StatusCode::Success => 200,
            StatusCode::BadRequest => 400,
            StatusCode::InternalServerError => 500,
        }
    }

    #[verifier::when_used_as_spec(spec_code)]
    pub fn code(self) -> (c: u16)
        ensures
            c == self.spec_code(),
    {
        match self {
            StatusCode::Success => 200,
            StatusCode::BadRequest => 400,
            StatusCode::InternalServerError => 500,
        }
    }

    /// Whether the status blames the caller's input.
    pub open spec fn spec_is_client_error(self) -> bool {
        400 <= self.spec_code() < 500
    }

    #[verifier::when_used_as_spec(spec_is_client_error)]
    pub fn is_client_error(self) -> (b: bool)
        ensures
            b == self.spec_is_client_error(),
    {
        let c: u16 = self.code();
        400 <= c && c < 500
    }
}

/// Everything that can go wrong. The first four kinds are faults of the
/// caller's input; `Internal` is a defect on this side.
#[derive(Clone, Copy, Debug, PartialEq, Eq, Structural)]
pub enum ApiError {
    /// Text that is not the base-58 form of a 32-byte address.
    InvalidAddress,
    /// Text or bytes that are not the encoding of a consistent keypair.
    InvalidSecret,
    /// A signature that does not have the scheme's fixed length.
    InvalidSignatureEncoding,
    /// A request field of the wrong shape.
    InvalidAmountOrField,
    /// An assembly routine failed on input that validation had accepted.
    Internal,
}

impl ApiError {
    pub open spec fn spec_status(self) -> StatusCode {
        match self {
            ApiError::Internal => StatusCode::InternalServerError,
            _ => StatusCode::BadRequest,
        }
    }

    /// The status a response carries for this error.
    #[verifier::when_used_as_spec(spec_status)]
    pub fn status(self) -> (s: StatusCode)
        ensures
            s == self.spec_status(),
    {
        match self {
            ApiError::Internal => StatusCode::InternalServerError,
            _ => StatusCode::BadRequest,
        }
    }

    pub open spec fn spec_message(self) -> Seq<char> {
        match self {
            ApiError::InvalidAddress => "Invalid address"@,
            ApiError::InvalidSecret => "Invalid secret key"@,
            ApiError::InvalidSignatureEncoding => "Invalid signature encoding"@,
            ApiError::InvalidAmountOrField => "Invalid request field"@,
            ApiError::Internal => "Internal error"@,
        }
    }

    /// A human-readable message for this error.
    pub fn message(self) -> (m: String)
        ensures
            m@ == self.spec_message(),
    {
        match self {
            ApiError::InvalidAddress => "Invalid address".to_string(),
            ApiError::InvalidSecret => "Invalid secret key".to_string(),
            ApiError::InvalidSignatureEncoding => "Invalid signature encoding".to_string(),
            ApiError::InvalidAmountOrField => "Invalid request field".to_string(),
            ApiError::Internal => "Internal error".to_string(),
        }
    }
}

} // verus!

use vstd::prelude::*;

verus! {

/// The transport error of the HTTP client.
#[verifier::external_type_specification]
#[verifier::external_body]
pub struct ExReqwestError(reqwest::Error);

/// What went wrong on a call to one of the outside services.
#[derive(Debug, Clone, Copy, PartialEq, Eq, Structural)]
pub enum NetworkErrorType {
    TokenQuotaReached,
    Unauthorized,
    Unknown,
}

/// An error from one of the outside services, with the transport error
/// behind it where there is one.
#[derive(Debug)]
pub struct NetworkError {
    pub error_type: NetworkErrorType,
    pub internal_error: Option<reqwest::Error>,
}

pub const TOKEN_QUOTA_MESSAGE: &'static str = "Token quota was reached.";

pub const UNAUTHORIZED_MESSAGE: &'static str = "Unauthorized or access token has expired.";

pub const NETWORK_ERROR_MESSAGE: &'static str = "A network error occurred.";

/// The text shown for an error of the given type.
pub open spec fn network_error_text(error_type: NetworkErrorType) -> Seq<char> {
    match error_type {
        NetworkErrorType::TokenQuotaReached => TOKEN_QUOTA_MESSAGE@,
        NetworkErrorType::Unauthorized => UNAUTHORIZED_MESSAGE@,
        NetworkErrorType::Unknown => NETWORK_ERROR_MESSAGE@,
    }
}

impl NetworkError {
    pub fn new(error_type: NetworkErrorType, internal_error: Option<reqwest::Error>) -> (r: Self)
        ensures
            r.error_type == error_type,
            r.internal_error == internal_error,
    {
        NetworkError { error_type, internal_error }
    }

    /// The text of the error, as its display form shows it.
    pub fn message(&self) -> (r: String)
        ensures
            r@ == network_error_text(self.error_type),
    {
        match self.error_type {
            NetworkErrorType::TokenQuotaReached => String::from_str(TOKEN_QUOTA_MESSAGE),
            NetworkErrorType::Unauthorized => String::from_str(UNAUTHORIZED_MESSAGE),
            NetworkErrorType::Unknown => String::from_str(NETWORK_ERROR_MESSAGE),
        }
    }
}

impl From<reqwest::Error> for NetworkError {
    /// A transport error is an error of unknown type that keeps the
    /// transport error.
    fn from(err: reqwest::Error) -> (r: Self) {
        NetworkError::new(NetworkErrorType::Unknown, Some(err))
    }
}

impl vstd::std_specs::convert::FromSpecImpl<reqwest::Error> for NetworkError {
    open spec fn obeys_from_spec() -> bool {
        true
    }

    open spec fn from_spec(v: reqwest::Error) -> Self {
        NetworkError { error_type: NetworkErrorType::Unknown, internal_error: Some(v) }
    }
}

} // verus!

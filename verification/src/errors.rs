//! The error types every flow of this crate reports.
//!
//! `ApiError` is the shared shell; each flow family supplies its own inner
//! error type.  Transport failures are reported by the caller that performs
//! the network traffic through the `Request` variant, carrying the
//! transport's message.

use vstd::prelude::*;

verus! {

/// Restricts which types may stand as the inner error of an [`ApiError`].
pub trait Sealed {

}

/// An error type owned by one of this crate's flow families.
pub trait RsMyCQUError: Sealed {

}

/// The error shell shared by every flow.
#[derive(Debug, Clone)]
pub enum ApiError<T: RsMyCQUError> {
    /// The action requires a prior single-sign-on login.
    NotLogin,
    /// The action requires a prior, still-valid service grant.
    NotAccess,
    /// The transport layer failed; the message is the transport's own.
    Request { msg: String },
    /// A response could not be read as the expected data model.
    ModelParse { msg: String },
    /// The remote site answered in an unexpected shape.
    Website { msg: String },
    /// An error specific to the flow family.
    Inner { source: T },
    /// An unclassified error.
    Whatever { message: String },
}

impl<T: RsMyCQUError> ApiError<T> {
    /// The error reported whenever a response that must carry a `Location`
    /// header does not.
    pub fn location_error() -> (r: Self)
        ensures
            is_location_error(r),
    {
        ApiError::Website { msg: missing_location_msg() }
    }
}

/// The message carried by [`ApiError::location_error`].
fn missing_location_msg() -> (r: String)
    ensures
        r@ == "Expected response has \"Location\" but not found"@,
{
    "Expected response has \"Location\" but not found".to_owned()
}

/// `e` is the error reported for a missing `Location` header.
pub open spec fn is_location_error<T: RsMyCQUError>(e: ApiError<T>) -> bool {
    e matches ApiError::Website { msg } && msg@ == spec_missing_location_msg()
}

/// The view of the message carried by [`ApiError::location_error`].
pub open spec fn spec_missing_location_msg() -> Seq<char> {
    "Expected response has \"Location\" but not found"@
}

/// The outcome of a flow: a value, or an [`ApiError`] around the flow
/// family's error type `E`.
pub type ApiResult<T, E> = Result<T, ApiError<E>>;

/// Errors of the single-sign-on login flow.
#[derive(Debug, Clone)]
pub enum SSOError {
    /// The password could not be encrypted against the page's salt.
    PasswordEncryptError,
    /// Logging out failed; a forced re-login continues regardless.
    LogoutError,
    /// The gateway answered with an unexpected status.
    UnknownSSOError { msg: String },
}

impl Sealed for SSOError {

}

impl RsMyCQUError for SSOError {

}

/// The outcome of a login-flow step.
pub type SSOResult<T> = ApiResult<T, SSOError>;

/// Errors of the course-and-grade service flows.
#[derive(Debug, Clone)]
pub enum MyCQUError {
    /// The service grant could not be obtained.
    AccessError,
}

impl Sealed for MyCQUError {

}

impl RsMyCQUError for MyCQUError {

}

/// The outcome of a course-and-grade flow step.
pub type MyCQUResult<T> = ApiResult<T, MyCQUError>;

/// Errors of the campus-card service flows.
#[derive(Debug, Clone)]
pub enum CardError {
    /// The service grant could not be obtained.
    AccessError,
}

impl Sealed for CardError {

}

impl RsMyCQUError for CardError {

}

/// The outcome of a campus-card flow step.
pub type CardResult<T> = ApiResult<T, CardError>;

} // verus!

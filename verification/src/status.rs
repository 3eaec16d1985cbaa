//! HTTP status classes, as the transport crate defines them.

use vstd::prelude::*;

verus! {

/// Whether `code` lies in the client-error class, 400 to 499.
pub open spec fn client_error_status(code: u16) -> bool {
    400 <= code <= 499
}

/// Whether `code` lies in the success class, 200 to 299.
pub open spec fn success_status(code: u16) -> bool {
    200 <= code <= 299
}

/// Calls `reqwest::StatusCode::is_client_error` on the status that
/// `reqwest::StatusCode::from_u16` makes of `code`. Trusted: the method
/// answers whether the number lies in 400..500, and a number that is no
/// status (below 100 or above 999) is in no class.
#[verifier::external_body]
fn is_client_error(code: u16) -> (r: bool)
    ensures
        r == client_error_status(code),
{
    match reqwest::StatusCode::from_u16(code) {
        Ok(status) => status.is_client_error(),
        Err(_) => false,
    }
}

/// Calls `reqwest::StatusCode::is_success` on the status that
/// `reqwest::StatusCode::from_u16` makes of `code`. Trusted: the method
/// answers whether the number lies in 200..300, and a number that is no
/// status (below 100 or above 999) is in no class.
#[verifier::external_body]
fn is_success(code: u16) -> (r: bool)
    ensures
        r == success_status(code),
{
    match reqwest::StatusCode::from_u16(code) {
        Ok(status) => status.is_success(),
        Err(_) => false,
    }
}

/// What a response with a given status holds for the caller.
#[derive(Clone, Copy, Debug, PartialEq, Eq, Structural)]
pub enum StatusClass {
    /// 2xx: the body is the payload.
    Success,
    /// 4xx: the body is the provider's error message.
    ClientError,
    /// Anything else: the status itself is the failure.
    Failure,
}

/// The class of `code`, by its spec.
pub open spec fn status_class(code: u16) -> StatusClass {
    if client_error_status(code) {
        StatusClass::ClientError
    } else if success_status(code) {
        StatusClass::Success
    } else {
        StatusClass::Failure
    }
}

/// Sorts a response status into the three classes that decide how the
/// body is read.
pub fn classify(code: u16) -> (class: StatusClass)
    ensures
        class == status_class(code),
{
    if is_client_error(code) {
        StatusClass::ClientError
    } else if is_success(code) {
        StatusClass::Success
    } else {
        StatusClass::Failure
    }
}

} // verus!

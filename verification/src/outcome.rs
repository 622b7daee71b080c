//! The three-way outcome of a call, and the capability that ties a request
//! type to the payloads it expects.

use vstd::prelude::*;

verus! {

/// A capability of a request type: it declares the payload that a successful
/// response carries and the payload by which the backing service describes a
/// failure.
pub trait Endpoint {
    /// Decoded from the body of a response with the success status.
    type SuccessPayload;

    /// Decoded, where the body allows it, from a response with any other
    /// status.
    type ErrorPayload;
}

/// The result of one call. The three variants exclude one another.
#[derive(Debug)]
pub enum Outcome<TRequest: Endpoint, TServiceError, TDecodeError> {
    /// The status was the success status and the body decoded as the success
    /// payload.
    Success(TRequest::SuccessPayload),
    /// The status was not the success status, and the body decoded as the
    /// error payload: the backing service said why it failed.
    ApplicationError(TServiceError, TRequest::ErrorPayload),
    /// Everything else. The decode error is present exactly when a decode was
    /// attempted and failed.
    InfrastructureFailure(TServiceError, Option<TDecodeError>),
}

impl<TRequest: Endpoint, TServiceError: View, TDecodeError> View for Outcome<
    TRequest,
    TServiceError,
    TDecodeError,
> {
    type V = Outcome<TRequest, TServiceError::V, TDecodeError>;

    open spec fn view(&self) -> Self::V {
        match *self {
            Outcome::Success(payload) => Outcome::Success(payload),
            Outcome::ApplicationError(error, payload) => Outcome::ApplicationError(error@, payload),
            Outcome::InfrastructureFailure(error, cause) => Outcome::InfrastructureFailure(
                error@,
                cause,
            ),
        }
    }
}

} // verus!

//! What holds of the expected outcome for every response and every answer of
//! the decoder.

use crate::classified;
use crate::decode::cause_words;
use crate::decoded_payload_view;
use crate::expected_outcome;
use crate::failed_call_view;
use crate::outcome::Endpoint;
use crate::outcome::Outcome;
use crate::staged_view;
use crate::stopped_view;
use crate::ResponseView;
use crate::ServiceError;
use crate::ServiceErrorView;
use crate::Stopped;
use crate::SUCCESS_STATUS;
use vstd::prelude::*;

verus! {

/// A response with the success status whose body decodes as the success
/// payload ends in `Success` with the decoded value. What the body would give
/// as an error payload plays no part: it is not asked for.
pub proof fn decodable_success_succeeds<TRequest: Endpoint>(
    body: Seq<char>,
    payload: TRequest::SuccessPayload,
    as_error: Result<TRequest::ErrorPayload, serde_json::Error>,
)
    ensures
        expected_outcome::<TRequest>(
            Ok(ResponseView { status: SUCCESS_STATUS, body }),
            Ok(payload),
            as_error,
        ) == Outcome::<TRequest, ServiceErrorView, serde_json::Error>::Success(payload),
{
}

/// A response with another status than the success status whose body decodes
/// as the error payload ends in `ApplicationError`: `ResultFailed` holding the
/// body, and the decoded value.
pub proof fn decodable_failure_is_application_error<TRequest: Endpoint>(
    status: u16,
    body: Seq<char>,
    payload: TRequest::ErrorPayload,
    as_success: Result<TRequest::SuccessPayload, serde_json::Error>,
)
    requires
        status != SUCCESS_STATUS,
    ensures
        expected_outcome::<TRequest>(Ok(ResponseView { status, body }), as_success, Ok(payload))
            == Outcome::<TRequest, ServiceErrorView, serde_json::Error>::ApplicationError(
            ServiceErrorView::ResultFailed { payload: body },
            payload,
        ),
{
}

/// A response with another status than the success status whose body does not
/// decode as the error payload ends in `InfrastructureFailure`: `ResultFailed`
/// holding the body, and the decoder's error.
pub proof fn undecodable_failure_is_infrastructure_failure<TRequest: Endpoint>(
    status: u16,
    body: Seq<char>,
    cause: serde_json::Error,
    as_success: Result<TRequest::SuccessPayload, serde_json::Error>,
)
    requires
        status != SUCCESS_STATUS,
    ensures
        expected_outcome::<TRequest>(Ok(ResponseView { status, body }), as_success, Err(cause))
            == Outcome::<TRequest, ServiceErrorView, serde_json::Error>::InfrastructureFailure(
            ServiceErrorView::ResultFailed { payload: body },
            Some(cause),
        ),
{
}

/// A response with the success status whose body does not decode as the
/// success payload ends in `InfrastructureFailure`: `InvalidPayload` holding
/// the decoder's words and the body, and the decoder's error. It is neither a
/// success nor an application error, whatever the body would give as an error
/// payload.
pub proof fn undecodable_success_is_infrastructure_failure<TRequest: Endpoint>(
    body: Seq<char>,
    cause: serde_json::Error,
    as_error: Result<TRequest::ErrorPayload, serde_json::Error>,
)
    ensures
        expected_outcome::<TRequest>(
            Ok(ResponseView { status: SUCCESS_STATUS, body }),
            Err(cause),
            as_error,
        ) == Outcome::<TRequest, ServiceErrorView, serde_json::Error>::InfrastructureFailure(
            ServiceErrorView::InvalidPayload { serde_error: cause_words(cause), payload: body },
            Some(cause),
        ),
{
}

/// A call that the transport could not complete, or whose body it could not
/// read, ends in `InfrastructureFailure` with the transport's error and no
/// decode error: nothing was there to decode.
pub proof fn transport_error_is_infrastructure_failure<TRequest: Endpoint>(
    error: ServiceErrorView,
    as_success: Result<TRequest::SuccessPayload, serde_json::Error>,
    as_error: Result<TRequest::ErrorPayload, serde_json::Error>,
)
    ensures
        expected_outcome::<TRequest>(Err(error), as_success, as_error) == Outcome::<
            TRequest,
            ServiceErrorView,
            serde_json::Error,
        >::InfrastructureFailure(error, None),
{
}

/// Which of the three outcomes a call ends in is decided by the status and by
/// whether the body decodes as the payload that the status calls for. An
/// application error is reported only for a response with another status than
/// the success status whose body decodes as the error payload; a success only
/// for one with the success status whose body decodes as the success payload.
/// Every other call is an infrastructure failure, and it carries a decode
/// error exactly when a response was there to decode.
pub proof fn variant_is_decided<TRequest: Endpoint>(
    fetched: Result<ResponseView, ServiceErrorView>,
    as_success: Result<TRequest::SuccessPayload, serde_json::Error>,
    as_error: Result<TRequest::ErrorPayload, serde_json::Error>,
)
    ensures
        expected_outcome::<TRequest>(fetched, as_success, as_error) is Success <==> (
        fetched matches Ok(response) && response.status == SUCCESS_STATUS && as_success is Ok),
        expected_outcome::<TRequest>(fetched, as_success, as_error) is ApplicationError <==> (
        fetched matches Ok(response) && response.status != SUCCESS_STATUS && as_error is Ok),
        expected_outcome::<TRequest>(
            fetched,
            as_success,
            as_error,
        ) matches Outcome::InfrastructureFailure(_, cause) ==> (cause is Some <==> fetched is Ok),
{
}

/// Merging what the stages hand on gives the expected outcome. On the
/// success path that is what decoding the body as the success payload handed
/// on; on the failure path the failed call with its decode attempt; for a
/// transport error the error without a decode attempt.
pub proof fn merged_stages_give_expected_outcome<TRequest: Endpoint>(
    response: ResponseView,
    error: ServiceErrorView,
    as_success: Result<TRequest::SuccessPayload, serde_json::Error>,
    as_error: Result<TRequest::ErrorPayload, serde_json::Error>,
)
    ensures
        response.status == SUCCESS_STATUS ==> classified::<TRequest, serde_json::Error>(
            decoded_payload_view::<TRequest::SuccessPayload, TRequest::ErrorPayload>(
                response.body,
                as_success,
            ),
        ) == expected_outcome::<TRequest>(Ok(response), as_success, as_error),
        response.status != SUCCESS_STATUS ==> classified::<TRequest, serde_json::Error>(
            Err(failed_call_view(response.body, as_error)),
        ) == expected_outcome::<TRequest>(Ok(response), as_success, as_error),
        classified::<TRequest, serde_json::Error>(Err((error, None))) == expected_outcome::<
            TRequest,
        >(Err(error), as_success, as_error),
{
}

/// Repeating a failed call gives the same: two runs on bodies of the same
/// text, with the same answer of the decoder, hand on the same error and the
/// same decode attempt.
pub proof fn repeated_failed_call_agrees<TError, D>(
    first_text: String,
    second_text: String,
    decoded: Result<TError, D>,
    first: Stopped<TError, D>,
    second: Stopped<TError, D>,
)
    requires
        first_text@ == second_text@,
        stopped_view(first) == failed_call_view(first_text@, decoded),
        stopped_view(second) == failed_call_view(second_text@, decoded),
    ensures
        stopped_view(first) == stopped_view(second),
{
}

/// Repeating the success path gives the same: two runs on bodies of the same
/// text, with the same answer of the decoder, hand on the same payload, or the
/// same `InvalidPayload` with the same decoder's error.
pub proof fn repeated_decoding_agrees<TResponse, TError>(
    first_text: String,
    second_text: String,
    decoded: Result<TResponse, serde_json::Error>,
    first: Result<TResponse, Stopped<TError, serde_json::Error>>,
    second: Result<TResponse, Stopped<TError, serde_json::Error>>,
)
    requires
        first_text@ == second_text@,
        staged_view(first) == decoded_payload_view::<TResponse, TError>(first_text@, decoded),
        staged_view(second) == decoded_payload_view::<TResponse, TError>(second_text@, decoded),
    ensures
        staged_view(first) == staged_view(second),
{
}

/// Repeating the merge gives the same outcome: two staged results that agree
/// in payload, in the view of the error and in the decode attempt merge into
/// outcomes of the same variant that carry the same.
pub proof fn repeated_classification_agrees<TRequest: Endpoint, D>(
    first: Result<TRequest::SuccessPayload, Stopped<TRequest::ErrorPayload, D>>,
    second: Result<TRequest::SuccessPayload, Stopped<TRequest::ErrorPayload, D>>,
    first_outcome: Outcome<TRequest, ServiceError, D>,
    second_outcome: Outcome<TRequest, ServiceError, D>,
)
    requires
        staged_view(first) == staged_view(second),
        first_outcome@ == classified::<TRequest, D>(staged_view(first)),
        second_outcome@ == classified::<TRequest, D>(staged_view(second)),
    ensures
        first_outcome@ == second_outcome@,
{
}

} // verus!

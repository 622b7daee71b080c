//! A JSON service client in stages: a request is resolved to a target
//! address, the transport (outside this library) fetches it, and what came
//! back is settled into exactly one of three outcomes: a decoded success
//! payload, an application error decoded from the body, or an infrastructure
//! failure.

pub mod decode;
pub mod laws;
pub mod locator;
pub mod outcome;

pub use crate::locator::ParseFailure;
pub use crate::outcome::Endpoint;
pub use crate::outcome::Outcome;

use crate::decode::cause_text;
use crate::decode::cause_words;
use crate::decode::from_json;
use crate::laws::merged_stages_give_expected_outcome;
use crate::locator::join;
use crate::locator::join_outcome;
use crate::locator::parse_absolute;
use crate::locator::parse_outcome;
use crate::locator::url_text;
use url::Url;
use vstd::prelude::*;
use vstd::std_specs::convert::IntoSpec;

verus! {

/// The one status that puts a response on the success path.
pub const SUCCESS_STATUS: u16 = 200;

/// Why a service could not be set up. More reasons may be added.
#[derive(Debug, PartialEq, Eq)]
#[non_exhaustive]
pub enum ConfigError {
    /// The base address is not an absolute URL.
    UrlParseFailed(ParseFailure),
}

/// Why a call did not end in a success payload.
#[derive(Debug, PartialEq, Eq)]
pub enum ServiceError {
    /// The request's path could not be joined onto the base address.
    AppendPathFailed(ParseFailure),
    /// The transport could not complete the call; holds its report.
    RequestFailed(String),
    /// A response arrived but its body could not be read; holds the
    /// transport's report.
    ReadBodyFailed(String),
    /// The response had another status than the success status.
    ResultFailed { payload: String },
    /// The response had the success status, but its body did not decode as the
    /// success payload; holds the decoder's words for why, and the body.
    InvalidPayload { serde_error: String, payload: String },
}

/// A [`ServiceError`] as a mathematical value: texts are sequences of
/// characters.
pub enum ServiceErrorView {
    AppendPathFailed(ParseFailure),
    RequestFailed(Seq<char>),
    ReadBodyFailed(Seq<char>),
    ResultFailed { payload: Seq<char> },
    InvalidPayload { serde_error: Seq<char>, payload: Seq<char> },
}

impl View for ServiceError {
    type V = ServiceErrorView;

    open spec fn view(&self) -> ServiceErrorView {
        match *self {
            ServiceError::AppendPathFailed(failure) => ServiceErrorView::AppendPathFailed(failure),
            ServiceError::RequestFailed(report) => ServiceErrorView::RequestFailed(report@),
            ServiceError::ReadBodyFailed(report) => ServiceErrorView::ReadBodyFailed(report@),
            ServiceError::ResultFailed { payload } => ServiceErrorView::ResultFailed {
                payload: payload@,
            },
            ServiceError::InvalidPayload { serde_error, payload } => {
                ServiceErrorView::InvalidPayload { serde_error: serde_error@, payload: payload@ }
            },
        }
    }
}

impl ServiceErrorView {
    /// The message by which the error presents itself to a reader.
    pub open spec fn message(self) -> Seq<char> {
        match self {
            ServiceErrorView::AppendPathFailed(_) => "Internal Server Error - Invalid Path"@,
            ServiceErrorView::RequestFailed(report) => report,
            ServiceErrorView::ReadBodyFailed(report) => report,
            ServiceErrorView::ResultFailed { payload } => "Internal Server Error ["@ + payload
                + "]"@,
            ServiceErrorView::InvalidPayload { serde_error, payload } => {
                "Failed to parse response ["@ + payload + "] because ["@ + serde_error + "]"@
            },
        }
    }
}

impl ServiceError {
    /// The error's message, as text.
    pub fn describe(&self) -> (text: String)
        ensures
            text@ == self@.message(),
    {
        match self {
            ServiceError::AppendPathFailed(_) => String::from_str(
                "Internal Server Error - Invalid Path",
            ),
            ServiceError::RequestFailed(report) => report.clone(),
            ServiceError::ReadBodyFailed(report) => report.clone(),
            ServiceError::ResultFailed { payload } => {
                let mut text = String::from_str("Internal Server Error [");
                text.append(payload.as_str());
                text.append("]");
                text
            },
            ServiceError::InvalidPayload { serde_error, payload } => {
                let mut text = String::from_str("Failed to parse response [");
                text.append(payload.as_str());
                text.append("] because [");
                text.append(serde_error.as_str());
                text.append("]");
                text
            },
        }
    }
}

/// How a caller asks to reach the backing service.
#[derive(Debug)]
pub enum Request {
    /// Fetch the resource found at `path`, taken relative to the base address.
    Get { path: String },
}

/// A [`Request`] as a mathematical value.
pub enum RequestView {
    Get { path: Seq<char> },
}

impl View for Request {
    type V = RequestView;

    open spec fn view(&self) -> RequestView {
        match *self {
            Request::Get { path } => RequestView::Get { path: path@ },
        }
    }
}

/// What the transport hands back once a response has arrived and its body has
/// been read to the end.
#[derive(Debug)]
pub struct Response {
    pub status: u16,
    pub body: String,
}

/// A [`Response`] as a mathematical value.
pub struct ResponseView {
    pub status: u16,
    pub body: Seq<char>,
}

impl View for Response {
    type V = ResponseView;

    open spec fn view(&self) -> ResponseView {
        ResponseView { status: self.status, body: self.body@ }
    }
}

/// A resolved target with the URL, if there is one, replaced by its text, and
/// the error by its view.
pub open spec fn target_text(resolved: Result<Url, ServiceError>) -> Result<
    Seq<char>,
    ServiceErrorView,
> {
    match resolved {
        Ok(target) => Ok(url_text(target)),
        Err(error) => Err(error@),
    }
}

/// The address that a path resolves to against a base address, or
/// `AppendPathFailed` with the reason where the two do not join.
pub open spec fn joined_path(base: Seq<char>, path: Seq<char>) -> Result<
    Seq<char>,
    ServiceErrorView,
> {
    match join_outcome(base, path) {
        Ok(target) => Ok(target),
        Err(failure) => Err(ServiceErrorView::AppendPathFailed(failure)),
    }
}

/// The address that a request resolves to against a base address.
pub open spec fn target_of(base: Seq<char>, request: RequestView) -> Result<
    Seq<char>,
    ServiceErrorView,
> {
    match request {
        RequestView::Get { path } => joined_path(base, path),
    }
}

/// Reads a text as an absolute URL.
pub fn parse_url(url_str: &str) -> (parsed: Result<Url, ConfigError>)
    ensures
        match parsed {
            Ok(url) => parse_outcome(url_str@) == Ok::<Seq<char>, ParseFailure>(url_text(url)),
            Err(ConfigError::UrlParseFailed(failure)) => parse_outcome(url_str@) == Err::<
                Seq<char>,
                ParseFailure,
            >(failure),
        },
        !url_str@.contains(':') ==> parsed matches Err(
            ConfigError::UrlParseFailed(ParseFailure::RelativeUrlWithoutBase),
        ),
{
    match parse_absolute(url_str) {
        Ok(url) => Ok(url),
        Err(failure) => Err(ConfigError::UrlParseFailed(failure)),
    }
}

/// A client of one backing service, reached at a fixed base address.
#[derive(Debug)]
pub struct ReqwestJsonService {
    url: Url,
}

impl ReqwestJsonService {
    /// The base address, as text.
    pub closed spec fn address(&self) -> Seq<char> {
        url_text(self.url)
    }

    /// Sets up a service for the given base address. Succeeds exactly on the
    /// texts that hold an absolute URL; a text without a colon, such as the
    /// empty text or a bare path, never does.
    pub fn with_url(url_str: &str) -> (made: Result<Self, ConfigError>)
        ensures
            match made {
                Ok(service) => parse_outcome(url_str@) == Ok::<Seq<char>, ParseFailure>(
                    service.address(),
                ),
                Err(ConfigError::UrlParseFailed(failure)) => parse_outcome(url_str@) == Err::<
                    Seq<char>,
                    ParseFailure,
                >(failure),
            },
            !url_str@.contains(':') ==> made matches Err(
                ConfigError::UrlParseFailed(ParseFailure::RelativeUrlWithoutBase),
            ),
    {
        match parse_url(url_str) {
            Ok(url) => Ok(ReqwestJsonService { url }),
            Err(error) => Err(error),
        }
    }

    /// The base address, as text.
    pub fn base_address(&self) -> (text: String)
        ensures
            text@ == self.address(),
    {
        String::from_str(self.url.as_str())
    }

    /// The service as it shows itself to a developer: its name, and the base
    /// address in braces.
    pub fn debug_text(&self) -> (text: String)
        ensures
            text@ == "ReqwestJsonService { url: "@ + self.address() + " }"@,
    {
        let mut text = String::from_str("ReqwestJsonService { url: ");
        text.append(self.url.as_str());
        text.append(" }");
        text
    }

    /// The address to fetch for a request: its path joined onto the base
    /// address.
    pub fn resolve(&self, request: Request) -> (resolved: Result<Url, ServiceError>)
        ensures
            target_text(resolved) == target_of(self.address(), request@),
    {
        match request {
            Request::Get { path } => build_path(&self.url, path.as_str()),
        }
    }
}

/// Joins a path onto a base URL.
pub fn build_path(url: &Url, path: &str) -> (resolved: Result<Url, ServiceError>)
    ensures
        target_text(resolved) == joined_path(url_text(*url), path@),
{
    match join(url, path) {
        Ok(target) => Ok(target),
        Err(failure) => Err(ServiceError::AppendPathFailed(failure)),
    }
}

/// The address to fetch for anything that converts into a [`Request`].
///
/// The conversion is the caller's: where it keeps to its specification the
/// result is that of [`ReqwestJsonService::resolve`] on the converted request,
/// and in every case it is the result for some request.
pub fn exec_request<TRequest: Into<Request>>(
    svc: &ReqwestJsonService,
    req: TRequest,
) -> (resolved: Result<Url, ServiceError>)
    ensures
        TRequest::obeys_into_spec() ==> target_text(resolved) == target_of(
            svc.address(),
            req.into_spec()@,
        ),
        exists|request: Request| target_text(resolved) == #[trigger] target_of(
            svc.address(),
            request@,
        ),
{
    let request: Request = req.into();
    svc.resolve(request)
}

/// What a stage hands on when it stops short of a success payload: the
/// error, and what came of decoding the body as the error payload where that
/// was tried.
pub type Stopped<TError, D> = (ServiceError, Option<Result<TError, D>>);

/// A [`Stopped`] as a mathematical value: the error is replaced by its view.
pub type StoppedView<TError, D> = (ServiceErrorView, Option<Result<TError, D>>);

/// What a stage stopped with, the error replaced by its view.
pub open spec fn stopped_view<TError, D>(stopped: Stopped<TError, D>) -> StoppedView<TError, D> {
    (stopped.0@, stopped.1)
}

/// What a stage handed on, the error, if there is one, replaced by its view.
pub open spec fn staged_view<TResponse, TError, D>(
    staged: Result<TResponse, Stopped<TError, D>>,
) -> Result<TResponse, StoppedView<TError, D>> {
    match staged {
        Ok(payload) => Ok(payload),
        Err(stopped) => Err(stopped_view(stopped)),
    }
}

/// What the transport reported, with response and error replaced by their
/// views.
pub open spec fn fetched_view(fetched: Result<Response, ServiceError>) -> Result<
    ResponseView,
    ServiceErrorView,
> {
    match fetched {
        Ok(response) => Ok(response@),
        Err(error) => Err(error@),
    }
}

/// What a failed call with the given body hands on, given what decoding the
/// body as the error payload gave: `ResultFailed` holding the body, and the
/// decode attempt.
pub open spec fn failed_call_view<TError, D>(
    body: Seq<char>,
    decoded: Result<TError, D>,
) -> StoppedView<TError, D> {
    (ServiceErrorView::ResultFailed { payload: body }, Some(decoded))
}

/// What the success path hands on for the given body, given what decoding it
/// as the success payload gave: the payload, or `InvalidPayload` holding the
/// decoder's words and the body, together with the decoder's error.
pub open spec fn decoded_payload_view<TResponse, TError>(
    body: Seq<char>,
    decoded: Result<TResponse, serde_json::Error>,
) -> Result<TResponse, StoppedView<TError, serde_json::Error>> {
    match decoded {
        Ok(payload) => Ok(payload),
        Err(cause) => Err(
            (
                ServiceErrorView::InvalidPayload { serde_error: cause_words(cause), payload: body },
                Some(Err(cause)),
            ),
        ),
    }
}

/// The outcome that a staged result stands for: a payload is a success; a
/// stage that stopped without a decode attempt, or with a failed one, is an
/// infrastructure failure; one that stopped with a decoded error payload is an
/// application error.
pub open spec fn classified<TRequest: Endpoint, D>(
    staged: Result<TRequest::SuccessPayload, StoppedView<TRequest::ErrorPayload, D>>,
) -> Outcome<TRequest, ServiceErrorView, D> {
    match staged {
        Ok(payload) => Outcome::Success(payload),
        Err((error, None)) => Outcome::InfrastructureFailure(error, None),
        Err((error, Some(Ok(payload)))) => Outcome::ApplicationError(error, payload),
        Err((error, Some(Err(cause)))) => Outcome::InfrastructureFailure(error, Some(cause)),
    }
}

/// The outcome owed for what the transport reported, given what decoding the
/// body gives: `as_success` when it is decoded as the success payload,
/// `as_error` when it is decoded as the error payload.
///
/// A transport error is an infrastructure failure without a decode error. A
/// response with the success status is decoded as the success payload only,
/// one with any other status as the error payload only.
pub open spec fn expected_outcome<TRequest: Endpoint>(
    fetched: Result<ResponseView, ServiceErrorView>,
    as_success: Result<TRequest::SuccessPayload, serde_json::Error>,
    as_error: Result<TRequest::ErrorPayload, serde_json::Error>,
) -> Outcome<TRequest, ServiceErrorView, serde_json::Error> {
    match fetched {
        Err(error) => Outcome::InfrastructureFailure(error, None),
        Ok(response) => if response.status == SUCCESS_STATUS {
            match as_success {
                Ok(payload) => Outcome::Success(payload),
                Err(cause) => Outcome::InfrastructureFailure(
                    ServiceErrorView::InvalidPayload {
                        serde_error: cause_words(cause),
                        payload: response.body,
                    },
                    Some(cause),
                ),
            }
        } else {
            match as_error {
                Ok(payload) => Outcome::ApplicationError(
                    ServiceErrorView::ResultFailed { payload: response.body },
                    payload,
                ),
                Err(cause) => Outcome::InfrastructureFailure(
                    ServiceErrorView::ResultFailed { payload: response.body },
                    Some(cause),
                ),
            }
        },
    }
}

/// What a failed call hands on, given what decoding its body as the error
/// payload gave: `ResultFailed` holding the body, and the decode attempt.
pub fn failed_call<TError, D>(text: String, decoded: Result<TError, D>) -> (stopped: Stopped<
    TError,
    D,
>)
    ensures
        stopped_view(stopped) == failed_call_view(text@, decoded),
{
    (ServiceError::ResultFailed { payload: text }, Some(decoded))
}

/// Sorts a response by its status. With the success status the body goes on
/// unchanged. With any other the call has failed: the body is kept in
/// `ResultFailed`, and decoded as the error payload, whatever that gives.
pub fn validate_status<TError>(status: u16, text: String) -> (checked: Result<
    String,
    Stopped<TError, serde_json::Error>,
>) where TError: serde::de::DeserializeOwned
    ensures
        status == SUCCESS_STATUS ==> (checked matches Ok(body) && body@ == text@),
        status != SUCCESS_STATUS ==> (checked matches Err((error, Some(_))) && error@ == (
            ServiceErrorView::ResultFailed { payload: text@ })),
{
    if status == SUCCESS_STATUS {
        Ok(text)
    } else {
        let decoded = from_json::<TError>(text.as_str());
        Err(failed_call(text, decoded))
    }
}

/// What the success path hands on, given what decoding the body as the
/// success payload gave: the payload, or `InvalidPayload` holding the
/// decoder's words and the body, together with the decoder's error.
pub fn decoded_payload<TResponse, TError>(
    text: String,
    decoded: Result<TResponse, serde_json::Error>,
) -> (staged: Result<TResponse, Stopped<TError, serde_json::Error>>)
    ensures
        staged_view(staged) == decoded_payload_view::<TResponse, TError>(text@, decoded),
{
    match decoded {
        Ok(payload) => Ok(payload),
        Err(cause) => {
            let serde_error = cause_text(&cause);
            Err((ServiceError::InvalidPayload { serde_error, payload: text }, Some(Err(cause))))
        },
    }
}

/// Decodes a body as the success payload. Whatever the decoder gives, the
/// result is a payload, or `InvalidPayload` holding the decoder's words and
/// the body, together with the decoder's error.
pub fn parse_response<TResponse, TError>(text: String) -> (staged: Result<
    TResponse,
    Stopped<TError, serde_json::Error>,
>) where TResponse: serde::de::DeserializeOwned
    ensures
        staged matches Err((error, attempt)) ==> (attempt matches Some(Err(cause)) && error@ == (
            ServiceErrorView::InvalidPayload { serde_error: cause_words(cause), payload: text@ })),
{
    let decoded = from_json::<TResponse>(text.as_str());
    decoded_payload(text, decoded)
}

/// Merges a staged result into the one outcome it stands for.
pub fn classify<TRequest: Endpoint, D>(
    staged: Result<TRequest::SuccessPayload, Stopped<TRequest::ErrorPayload, D>>,
) -> (outcome: Outcome<TRequest, ServiceError, D>)
    ensures
        outcome@ == classified::<TRequest, D>(staged_view(staged)),
{
    match staged {
        Ok(payload) => Outcome::Success(payload),
        Err((error, None)) => Outcome::InfrastructureFailure(error, None),
        Err((error, Some(Ok(payload)))) => Outcome::ApplicationError(error, payload),
        Err((error, Some(Err(cause)))) => Outcome::InfrastructureFailure(error, Some(cause)),
    }
}

/// Settles what the transport reported into the outcome of the call.
///
/// The body is decoded once, as the payload that the status calls for. The
/// outcome is the expected one for what that decoding gave; in particular a
/// response with the success status never ends as an application error, and
/// one with another status never as a success.
pub fn conclude<TRequest: Endpoint>(fetched: Result<Response, ServiceError>) -> (outcome: Outcome<
    TRequest,
    ServiceError,
    serde_json::Error,
>) where
    TRequest::SuccessPayload: serde::de::DeserializeOwned,
    TRequest::ErrorPayload: serde::de::DeserializeOwned,

    ensures
        exists|
            as_success: Result<TRequest::SuccessPayload, serde_json::Error>,
            as_error: Result<TRequest::ErrorPayload, serde_json::Error>,
        |
            outcome@ == #[trigger] expected_outcome::<TRequest>(
                fetched_view(fetched),
                as_success,
                as_error,
            ),
        fetched matches Ok(response) && response.status == SUCCESS_STATUS ==> !(outcome
            is ApplicationError),
        fetched matches Ok(response) && response.status != SUCCESS_STATUS ==> !(outcome
            is Success),
        outcome matches Outcome::InfrastructureFailure(_, cause) ==> (cause is Some
            <==> fetched is Ok),
{
    match fetched {
        Err(error) => {
            proof {
                merged_stages_give_expected_outcome::<TRequest>(
                    arbitrary(),
                    error@,
                    arbitrary(),
                    arbitrary(),
                );
            }
            classify::<TRequest, serde_json::Error>(Err((error, None)))
        },
        Ok(response) => {
            match validate_status::<TRequest::ErrorPayload>(response.status, response.body) {
                Ok(text) => {
                    let staged = parse_response::<TRequest::SuccessPayload, TRequest::ErrorPayload>(
                        text,
                    );
                    proof {
                        let as_success: Result<TRequest::SuccessPayload, serde_json::Error> =
                            if staged is Ok {
                            Ok(staged->Ok_0)
                        } else {
                            Err(staged->Err_0.1->Some_0->Err_0)
                        };
                        merged_stages_give_expected_outcome::<TRequest>(
                            response@,
                            arbitrary(),
                            as_success,
                            arbitrary(),
                        );
                    }
                    classify::<TRequest, serde_json::Error>(staged)
                },
                Err(stopped) => {
                    proof {
                        merged_stages_give_expected_outcome::<TRequest>(
                            response@,
                            arbitrary(),
                            arbitrary(),
                            stopped.1->Some_0,
                        );
                    }
                    classify::<TRequest, serde_json::Error>(Err(stopped))
                },
            }
        },
    }
}

} // verus!

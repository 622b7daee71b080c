//! Addresses: the absolute URL a service is reached at, and the joining of a
//! relative reference onto it.
//!
//! Reading and joining URLs is the work of the `url` crate. This module fixes
//! what the rest of the library may rely on: a URL is known by its
//! serialization, and each of the two operations is a function of the texts it
//! is given.

use url::ParseError;
use url::Url;
use vstd::prelude::*;

verus! {

/// Why a text could not be read as a URL. One variant for each reason that the
/// `url` crate reports, and `Other` for any reason it may add later.
#[derive(Clone, Copy, Debug, PartialEq, Eq, Structural)]
pub enum ParseFailure {
    EmptyHost,
    IdnaError,
    InvalidPort,
    InvalidIpv4Address,
    InvalidIpv6Address,
    InvalidDomainCharacter,
    RelativeUrlWithoutBase,
    RelativeUrlWithCannotBeABaseBase,
    SetHostOnCannotBeABaseUrl,
    Overflow,
    Other,
}

/// `url::Url`, known to the library by its serialization alone.
#[verifier::external_type_specification]
#[verifier::external_body]
pub struct ExUrl(Url);

/// The serialization that a URL holds: the text that `Url::as_str` shows, by
/// which two URLs compare.
pub uninterp spec fn url_text(url: Url) -> Seq<char>;

/// What `Url::parse` makes of a text: the serialization of the absolute URL it
/// reads from it, or the reason why it reads none.
pub uninterp spec fn parse_outcome(input: Seq<char>) -> Result<Seq<char>, ParseFailure>;

/// What `Url::join` makes of a reference, taken against the base URL with the
/// given serialization: the serialization of the resulting URL, or the reason
/// why there is none.
pub uninterp spec fn join_outcome(base: Seq<char>, reference: Seq<char>) -> Result<
    Seq<char>,
    ParseFailure,
>;

/// A parsing result with the URL, if there is one, replaced by its text.
pub open spec fn as_text(parsed: Result<Url, ParseFailure>) -> Result<Seq<char>, ParseFailure> {
    match parsed {
        Ok(url) => Ok(url_text(url)),
        Err(failure) => Err(failure),
    }
}

/// Calls `Url::parse`.
///
/// Trusted: the result is `parse_outcome` of the input. A text without a colon
/// carries no scheme, and the parser, having no base to fall back on, then
/// reports `RelativeUrlWithoutBase`; the empty text is one such.
#[verifier::external_body]
pub(crate) fn parse_absolute(input: &str) -> (parsed: Result<Url, ParseFailure>)
    ensures
        as_text(parsed) == parse_outcome(input@),
        !input@.contains(':') ==> parsed matches Err(ParseFailure::RelativeUrlWithoutBase),
{
    match Url::parse(input) {
        Ok(url) => Ok(url),
        Err(ParseError::EmptyHost) => Err(ParseFailure::EmptyHost),
        Err(ParseError::IdnaError) => Err(ParseFailure::IdnaError),
        Err(ParseError::InvalidPort) => Err(ParseFailure::InvalidPort),
        Err(ParseError::InvalidIpv4Address) => Err(ParseFailure::InvalidIpv4Address),
        Err(ParseError::InvalidIpv6Address) => Err(ParseFailure::InvalidIpv6Address),
        Err(ParseError::InvalidDomainCharacter) => Err(ParseFailure::InvalidDomainCharacter),
        Err(ParseError::RelativeUrlWithoutBase) => Err(ParseFailure::RelativeUrlWithoutBase),
        Err(ParseError::RelativeUrlWithCannotBeABaseBase) => Err(ParseFailure::RelativeUrlWithCannotBeABaseBase),
        Err(ParseError::SetHostOnCannotBeABaseUrl) => Err(ParseFailure::SetHostOnCannotBeABaseUrl),
        Err(ParseError::Overflow) => Err(ParseFailure::Overflow),
        Err(_) => Err(ParseFailure::Other),
    }
}

/// Calls `Url::join`.
///
/// Trusted: the result is `join_outcome` of the base's serialization and the
/// reference.
#[verifier::external_body]
pub(crate) fn join(base: &Url, reference: &str) -> (joined: Result<Url, ParseFailure>)
    ensures
        as_text(joined) == join_outcome(url_text(*base), reference@),
{
    match base.join(reference) {
        Ok(url) => Ok(url),
        Err(ParseError::EmptyHost) => Err(ParseFailure::EmptyHost),
        Err(ParseError::IdnaError) => Err(ParseFailure::IdnaError),
        Err(ParseError::InvalidPort) => Err(ParseFailure::InvalidPort),
        Err(ParseError::InvalidIpv4Address) => Err(ParseFailure::InvalidIpv4Address),
        Err(ParseError::InvalidIpv6Address) => Err(ParseFailure::InvalidIpv6Address),
        Err(ParseError::InvalidDomainCharacter) => Err(ParseFailure::InvalidDomainCharacter),
        Err(ParseError::RelativeUrlWithoutBase) => Err(ParseFailure::RelativeUrlWithoutBase),
        Err(ParseError::RelativeUrlWithCannotBeABaseBase) => Err(ParseFailure::RelativeUrlWithCannotBeABaseBase),
        Err(ParseError::SetHostOnCannotBeABaseUrl) => Err(ParseFailure::SetHostOnCannotBeABaseUrl),
        Err(ParseError::Overflow) => Err(ParseFailure::Overflow),
        Err(_) => Err(ParseFailure::Other),
    }
}

/// `Url::as_str` shows the serialization.
pub assume_specification[ Url::as_str ](url: &Url) -> (text: &str)
    ensures
        text@ == url_text(*url),
;

} // verus!

//! Decoding of body text into typed payloads, which is the work of
//! `serde_json`.

use vstd::prelude::*;

verus! {

/// `serde_json::Error`, carried as it comes: nothing is read from it.
#[verifier::external_type_specification]
#[verifier::external_body]
pub struct ExDecodeError(serde_json::Error);

/// The words in which a decode error presents itself: the text that its
/// `Display` implementation writes.
pub uninterp spec fn cause_words(cause: serde_json::Error) -> Seq<char>;

/// Calls `to_string` on a `serde_json::Error`, which writes the error through
/// its `Display` implementation.
///
/// Trusted: the text is `cause_words` of the error.
#[verifier::external_body]
pub(crate) fn cause_text(cause: &serde_json::Error) -> (text: String)
    ensures
        text@ == cause_words(*cause),
{
    cause.to_string()
}

/// Calls `serde_json::from_str`.
///
/// Trusted, and nothing is claimed of the result: whether a text decodes, and
/// into which value, is decided by the payload type's own `Deserialize`
/// implementation. The callers are verified for every value that may come
/// back.
#[verifier::external_body]
pub(crate) fn from_json<T>(text: &str) -> (decoded: Result<T, serde_json::Error>) where
    T: serde::de::DeserializeOwned,
{
    serde_json::from_str::<T>(text)
}

} // verus!

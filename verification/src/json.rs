//! Decoded payloads: JSON documents as `serde_json` represents them.

use vstd::prelude::*;

verus! {

/// `serde_json::Value`, a JSON document. The library carries such values
/// from the decoder into the records and never looks inside one.
#[verifier::external_type_specification]
#[verifier::external_body]
pub struct ExJsonValue(serde_json::Value);

/// `serde_json::Error`, the parser's account of a text that it rejects.
#[verifier::external_type_specification]
#[verifier::external_body]
pub struct ExJsonError(serde_json::Error);

/// The document that `serde_json::from_str` reads from `text`, or `None`
/// where it rejects the text.
pub uninterp spec fn json_document(text: Seq<char>) -> Option<serde_json::Value>;

/// Calls `serde_json::from_str` for a `serde_json::Value`.
///
/// Trusted: the parser's answer depends on the text alone, so it is named
/// by `json_document`; nothing is said here about which texts are JSON.
#[verifier::external_body]
fn from_str(text: &str) -> (parsed: Result<serde_json::Value, serde_json::Error>)
    ensures
        match parsed {
            Ok(value) => json_document(text@) == Some(value),
            Err(_) => json_document(text@) is None,
        },
{
    serde_json::from_str(text)
}

/// Why a reply body was not accepted as a decoded payload.
#[derive(Clone, Copy, Debug, PartialEq, Eq, Structural)]
pub enum BodyError {
    /// The body is not a JSON document.
    NotJson,
}

/// What a parsed document counts as: the document, or the refusal of a
/// body that is not JSON.
pub open spec fn accept(parsed: Option<serde_json::Value>) -> Result<serde_json::Value, BodyError> {
    match parsed {
        Some(document) => Ok(document),
        None => Err(BodyError::NotJson),
    }
}

/// Turns the parser's answer into the library's own.
pub fn accept_parsed(parsed: Result<serde_json::Value, serde_json::Error>) -> (accepted: Result<
    serde_json::Value,
    BodyError,
>)
    ensures
        accepted == (match parsed {
            Ok(document) => Ok::<serde_json::Value, BodyError>(document),
            Err(_) => Err(BodyError::NotJson),
        }),
{
    match parsed {
        Ok(document) => Ok(document),
        Err(_) => Err(BodyError::NotJson),
    }
}

/// Reads a reply body as a JSON document.
pub fn parse_body(body: &str) -> (parsed: Result<serde_json::Value, BodyError>)
    ensures
        parsed == accept(json_document(body@)),
{
    accept_parsed(from_str(body))
}

} // verus!

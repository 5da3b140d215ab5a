//! The calls into the JSON, URL and JWT crates that the bridge relies on.
//!
//! Nothing in this file is proved: every contract here is taken from the
//! documentation and source of the crate that is called.

use std::collections::HashMap;
use std::str::FromStr;
use vstd::prelude::*;

verus! {

/// A JSON document held by `serde_json`; its inside is not visible to proofs.
#[verifier::external_type_specification]
#[verifier::external_body]
pub struct ExJsonValue(serde_json::Value);

/// The error that `serde_json` reports for a text it cannot read.
#[verifier::external_type_specification]
#[verifier::external_body]
pub struct ExJsonError(serde_json::Error);

/// A parsed URL record of the `url` crate.
#[verifier::external_type_specification]
#[verifier::external_body]
pub struct ExUrl(url::Url);

/// The error that the `url` crate reports for a text that is no absolute URL.
#[verifier::external_type_specification]
#[verifier::external_body]
pub struct ExUrlParseError(url::ParseError);

/// The signature algorithms that `jsonwebtoken` knows.
#[verifier::external_type_specification]
pub struct ExAlgorithm(jsonwebtoken::Algorithm);

/// What `serde_json::from_str` gives for a text read as a JSON document.
pub uninterp spec fn json_value_of(text: Seq<char>) -> Result<serde_json::Value, serde_json::Error>;

/// What `serde_json::from_str` gives for a text read as a JSON object of named values.
pub uninterp spec fn json_attributes_of(text: Seq<char>) -> Result<
    Map<String, serde_json::Value>,
    serde_json::Error,
>;

/// The text that a `serde_json::Error` displays.
pub uninterp spec fn json_error_text(err: serde_json::Error) -> Seq<char>;

/// What `url::Url::parse` gives for a text.
pub uninterp spec fn url_of(text: Seq<char>) -> Result<url::Url, url::ParseError>;

/// The text that a `url::ParseError` displays.
pub uninterp spec fn url_error_text(err: url::ParseError) -> Seq<char>;

/// The span of time that `std::time::Duration::from_nanos` gives for a
/// number of nanoseconds.
pub uninterp spec fn duration_of_nanos(nanos: u64) -> std::time::Duration;

/// The algorithm that a name stands for: the twelve names that
/// `jsonwebtoken` recognises, letter for letter, and nothing else.
pub open spec fn algorithm_of_name(name: Seq<char>) -> Option<jsonwebtoken::Algorithm> {
    if name == "HS256"@ {
        Some(jsonwebtoken::Algorithm::HS256)
    } else if name == "HS384"@ {
        Some(jsonwebtoken::Algorithm::HS384)
    } else if name == "HS512"@ {
        Some(jsonwebtoken::Algorithm::HS512)
    } else if name == "ES256"@ {
        Some(jsonwebtoken::Algorithm::ES256)
    } else if name == "ES384"@ {
        Some(jsonwebtoken::Algorithm::ES384)
    } else if name == "RS256"@ {
        Some(jsonwebtoken::Algorithm::RS256)
    } else if name == "RS384"@ {
        Some(jsonwebtoken::Algorithm::RS384)
    } else if name == "PS256"@ {
        Some(jsonwebtoken::Algorithm::PS256)
    } else if name == "PS384"@ {
        Some(jsonwebtoken::Algorithm::PS384)
    } else if name == "PS512"@ {
        Some(jsonwebtoken::Algorithm::PS512)
    } else if name == "RS512"@ {
        Some(jsonwebtoken::Algorithm::RS512)
    } else if name == "EdDSA"@ {
        Some(jsonwebtoken::Algorithm::EdDSA)
    } else {
        None
    }
}

/// Calls `serde_json::from_str` for a `serde_json::Value`. The result is a
/// function of the text alone; the contract only gives it its name.
#[verifier::external_body]
pub(crate) fn parse_json_value(text: &str) -> (res: Result<serde_json::Value, serde_json::Error>)
    ensures
        res == json_value_of(text@),
{
    serde_json::from_str::<serde_json::Value>(text)
}

/// Calls `serde_json::from_str` for a map from names to JSON values. What the
/// map holds is a function of the text alone; the contract only names it.
#[verifier::external_body]
pub(crate) fn parse_json_attributes(text: &str) -> (res: Result<
    HashMap<String, serde_json::Value>,
    serde_json::Error,
>)
    ensures
        match res {
            Ok(m) => json_attributes_of(text@) == Ok::<
                Map<String, serde_json::Value>,
                serde_json::Error,
            >(m@),
            Err(e) => json_attributes_of(text@) == Err::<
                Map<String, serde_json::Value>,
                serde_json::Error,
            >(e),
        },
{
    serde_json::from_str::<HashMap<String, serde_json::Value>>(text)
}

/// Calls `to_string` on a `serde_json::Error`, which writes what the error
/// displays. The contract only names that text.
#[verifier::external_body]
pub(crate) fn json_error_to_string(err: &serde_json::Error) -> (res: String)
    ensures
        res@ == json_error_text(*err),
{
    err.to_string()
}

/// Calls `url::Url::parse`. The result is a function of the text alone; the
/// contract only gives it its name.
#[verifier::external_body]
pub(crate) fn parse_url(text: &str) -> (res: Result<url::Url, url::ParseError>)
    ensures
        res == url_of(text@),
{
    url::Url::parse(text)
}

/// Calls `to_string` on a `url::ParseError`, which writes what the error
/// displays. The contract only names that text.
#[verifier::external_body]
pub(crate) fn url_error_to_string(err: &url::ParseError) -> (res: String)
    ensures
        res@ == url_error_text(*err),
{
    err.to_string()
}

/// Calls `std::time::Duration::from_nanos`, which makes the span of that
/// many nanoseconds and accepts every `u64`. The contract only names the span.
#[verifier::external_body]
pub(crate) fn duration_from_nanos(nanos: u64) -> (res: std::time::Duration)
    ensures
        res == duration_of_nanos(nanos),
{
    std::time::Duration::from_nanos(nanos)
}

/// Calls `jsonwebtoken::Algorithm::from_str`, which matches the name against
/// its twelve literals and fails on any other text. The failure carries no
/// information beyond the fact, so it is handed on as `None`.
#[verifier::external_body]
pub(crate) fn parse_algorithm(name: &str) -> (res: Option<jsonwebtoken::Algorithm>)
    ensures
        res == algorithm_of_name(name@),
{
    jsonwebtoken::Algorithm::from_str(name).ok()
}

} // verus!

//! Obtaining an access token from StreamKit: reading the token out of each
//! response, and deciding whether to try again.

use vstd::prelude::*;
use vstd::string::*;
use crate::text::opt_view;

verus! {

/// How often the token exchange is tried before giving up.
pub const AUTH_ATTEMPTS: u8 = 3;

/// What JSON text says about a key: `None` where the text is not JSON,
/// `Some(None)` where it is JSON but has no string under `key` at its top
/// level, and `Some(Some(s))` where it has the string `s` there.
pub uninterp spec fn json_string_field(text: Seq<char>, key: Seq<char>) -> Option<Option<Seq<char>>>;

/// Parses `text` with `serde_json::from_str::<serde_json::Value>` and turns
/// the parsed value into a plain one: the string under `key` at the top
/// level (`Value::get`, then `Value::as_str`). The contract says only that
/// the result is the name `json_string_field` applied to the text and the
/// key; what JSON parsing accepts is not restated here.
#[verifier::external_body]
fn json_str_field(text: &str, key: &str) -> (r: Option<Option<String>>)
    ensures
        json_string_field(text@, key@) == match r {
            Some(Some(s)) => Some(Some(s@)),
            Some(None) => Some(None),
            None => None::<Option<Seq<char>>>,
        },
{
    match serde_json::from_str::<serde_json::Value>(text) {
        Ok(v) => match v.get(key) {
            Some(field) => Some(field.as_str().map(String::from)),
            None => Some(None),
        },
        Err(_) => None,
    }
}

/// What to do after one exchange.
#[derive(Debug, Clone, PartialEq)]
pub enum AuthStep {
    /// The response held this access token.
    Token(String),
    /// The response was JSON without a token: ask again.
    Retry,
    /// Stop without a token.
    GiveUp,
}

/// The step after attempt `attempt` (counted from 1) for a parsed response:
/// a token ends the exchange, a response that is not JSON stops it, and a
/// JSON response without a token is retried until `AUTH_ATTEMPTS` attempts
/// have been made.
pub fn auth_step(attempt: u8, parsed: Option<Option<String>>) -> (r: AuthStep)
    ensures
        match parsed {
            Some(Some(t)) => r matches AuthStep::Token(rt) && rt == t,
            Some(None) => if attempt < AUTH_ATTEMPTS {
                r is Retry
            } else {
                r is GiveUp
            },
            None => r is GiveUp,
        },
{
    match parsed {
        Some(Some(t)) => AuthStep::Token(t),
        Some(None) => {
            if attempt < AUTH_ATTEMPTS {
                AuthStep::Retry
            } else {
                AuthStep::GiveUp
            }
        },
        None => AuthStep::GiveUp,
    }
}

/// The step after attempt `attempt` (counted from 1) whose response body
/// was `body`; `None` stands for a request that failed or a body that could
/// not be read, which stops the exchange.
pub fn auth_response_step(attempt: u8, body: Option<&str>) -> (r: AuthStep)
    ensures
        match body {
            None => r is GiveUp,
            Some(b) => match json_string_field(b@, "access_token"@) {
                Some(Some(t)) => r matches AuthStep::Token(rt) && rt@ == t,
                Some(None) => if attempt < AUTH_ATTEMPTS {
                    r is Retry
                } else {
                    r is GiveUp
                },
                None => r is GiveUp,
            },
        },
{
    match body {
        None => AuthStep::GiveUp,
        Some(b) => auth_step(attempt, json_str_field(b, "access_token")),
    }
}

/// The serialization of a URL as `url::Url` parses it, or `None` where it
/// does not parse.
pub uninterp spec fn url_serialization(s: Seq<char>) -> Option<Seq<char>>;

/// Parses `s` with `url::Url::parse` and gives back `Url::as_str` of the
/// result. The result is the name `url_serialization` applied to `s`; what
/// the URL standard makes of a string is not restated here.
#[verifier::external_body]
fn parse_url(s: &str) -> (r: Option<String>)
    ensures
        opt_view(r) == url_serialization(s@),
{
    match url::Url::parse(s) {
        Ok(u) => Some(u.as_str().to_string()),
        Err(_) => None,
    }
}

/// Where authorisation codes are exchanged for access tokens, as the URL
/// parser normalises it.
pub fn token_endpoint() -> (r: Option<String>)
    ensures
        opt_view(r) == url_serialization("https://streamkit.discord.com/overlay/token"@),
{
    parse_url("https://streamkit.discord.com/overlay/token")
}

} // verus!

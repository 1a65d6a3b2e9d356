//! URLs as text, parsed and resolved by the `url` crate, and RFC 3339 times
//! read by `chrono`.
use vstd::prelude::*;

verus! {

/// The serialization of the URL that `Url::parse` reads from `s`, if it
/// reads one.
pub uninterp spec fn url_parsed(s: Seq<char>) -> Option<Seq<char>>;

/// The serialization of `input` resolved against the parsed URL whose
/// serialization is `base` (`Url::join`), if it resolves.
pub uninterp spec fn url_joined(base: Seq<char>, input: Seq<char>) -> Option<Seq<char>>;

/// `input` resolved against the URL that the text `base` parses to: nothing
/// when `base` is not a URL.
pub open spec fn url_resolved(base: Seq<char>, input: Seq<char>) -> Option<Seq<char>> {
    match url_parsed(base) {
        Some(b) => url_joined(b, input),
        None => None,
    }
}

/// The instant an RFC 3339 timestamp names, in milliseconds since the Unix
/// epoch (`DateTime::parse_from_rfc3339`), if `s` is one.
pub uninterp spec fn rfc3339_millis(s: Seq<char>) -> Option<i64>;

/// `Url::parse`, then the URL as text.
#[verifier::external_body]
pub(crate) fn parse_url(s: &str) -> (r: Option<String>)
    ensures
        match r {
            Some(u) => url_parsed(s@) == Some(u@),
            None => url_parsed(s@) is None,
        },
{
    url::Url::parse(s).ok().map(|u| u.to_string())
}

/// `Url::parse` of `base`, then `Url::join` of `input` on the parsed URL,
/// then the URL as text.
#[verifier::external_body]
pub(crate) fn join_url(base: &str, input: &str) -> (r: Option<String>)
    ensures
        match url_parsed(base@) {
            Some(b) => match r {
                Some(u) => url_joined(b, input@) == Some(u@),
                None => url_joined(b, input@) is None,
            },
            None => r is None,
        },
{
    url::Url::parse(base).ok().and_then(|b| b.join(input).ok()).map(|u| u.to_string())
}

/// `DateTime::parse_from_rfc3339`, as milliseconds since the Unix epoch.
#[verifier::external_body]
pub(crate) fn parse_rfc3339(s: &str) -> (r: Option<i64>)
    ensures
        r == rfc3339_millis(s@),
{
    chrono::DateTime::parse_from_rfc3339(s).ok().map(|d| d.timestamp_millis())
}

} // verus!

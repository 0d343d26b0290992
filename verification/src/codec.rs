//! The calls into the `url` and `serde_json` crates.
//!
//! Nothing in this file is proved. Each function hands plain strings to one
//! outside routine and gives its answer back as plain strings; the result is
//! known to the rest of the crate only by name.

use vstd::prelude::*;

verus! {

/// What `url::Url::parse(base)` followed by `Url::join(path)` yields, as the
/// serialised URL; `None` where either step is refused.
pub uninterp spec fn url_join(base: Seq<char>, path: Seq<char>) -> Option<Seq<char>>;

/// What `url::form_urlencoded::Serializer` writes into an empty string for
/// the name/value pairs, in their order.
pub uninterp spec fn form_urlencoded(pairs: Seq<(Seq<char>, Seq<char>)>) -> Seq<char>;

/// The member `key` of the JSON object that `doc` holds, written out again by
/// `serde_json` as compact JSON; `None` where `doc` is no JSON text, no
/// object, or an object without that member.
pub uninterp spec fn json_member(doc: Seq<char>, key: Seq<char>) -> Option<Seq<char>>;

/// The string that the JSON text `doc` denotes; `None` where `doc` is no
/// JSON text or is not a string.
pub uninterp spec fn json_string(doc: Seq<char>) -> Option<Seq<char>>;

/// The view of an optional string.
pub open spec fn text_view(s: Option<String>) -> Option<Seq<char>> {
    match s {
        Some(t) => Some(t@),
        None => None,
    }
}

/// The view of a list of name/value pairs.
pub open spec fn pairs_view(pairs: Seq<(String, String)>) -> Seq<(Seq<char>, Seq<char>)> {
    pairs.map_values(|p: (String, String)| (p.0@, p.1@))
}

/// Calls `url::Url::parse` on `base` and `Url::join` with `path` on what it
/// gives. The contract claims only that the outcome is a function of the two
/// strings: the serialised URL, or `None` where `url` reports a parse error.
#[verifier::external_body]
pub(crate) fn join_url(base: &str, path: &str) -> (r: Option<String>)
    ensures
        text_view(r) == url_join(base@, path@),
{
    url::Url::parse(base).ok()?.join(path).ok().map(String::from)
}

/// Calls `url::form_urlencoded::Serializer::extend_pairs` on an empty target
/// and takes the string with `finish`. The contract claims only that the text
/// is a function of the pairs.
#[verifier::external_body]
pub(crate) fn encode_pairs(pairs: &Vec<(String, String)>) -> (r: String)
    ensures
        r@ == form_urlencoded(pairs_view(pairs@)),
{
    url::form_urlencoded::Serializer::new(String::new()).extend_pairs(pairs.iter()).finish()
}

/// Calls `serde_json::from_str` for a `serde_json::Value`, `Value::get` with
/// `key`, and `to_string` on the member found. The contract claims only that
/// the outcome is a function of the two strings; `None` stands for a parse
/// error and for a missing member alike.
#[verifier::external_body]
pub(crate) fn member_text(doc: &str, key: &str) -> (r: Option<String>)
    ensures
        text_view(r) == json_member(doc@, key@),
{
    serde_json::from_str::<serde_json::Value>(doc).ok()?.get(key).map(|v| v.to_string())
}

/// Calls `serde_json::from_str` for a `String`. The contract claims only that
/// the outcome is a function of the text; `None` stands for every error that
/// `serde_json` reports.
#[verifier::external_body]
pub(crate) fn string_text(doc: &str) -> (r: Option<String>)
    ensures
        text_view(r) == json_string(doc@),
{
    serde_json::from_str::<String>(doc).ok()
}

} // verus!

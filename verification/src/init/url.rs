//! URLs, held as their serialization (`url::Url::as_str`), and the
//! operations of the `url` crate on them.
use crate::text::opt_view;
use vstd::prelude::*;

verus! {

/// The serialization of `url::Url::parse(text)`; `None` where it fails.
pub uninterp spec fn url_parsed(text: Seq<char>) -> Option<Seq<char>>;

/// The serialization of `Url::parse(base)` joined with `input` (`Url::join`).
pub uninterp spec fn url_joined(base: Seq<char>, input: Seq<char>) -> Option<Seq<char>>;

/// The serialization of `Url::parse(url)` after `Url::set_path(path)`.
pub uninterp spec fn url_with_path(url: Seq<char>, path: Seq<char>) -> Option<Seq<char>>;

/// The serialization of `Url::parse(url)` after `Url::set_query(Some(query))`.
pub uninterp spec fn url_with_query(url: Seq<char>, query: Seq<char>) -> Option<Seq<char>>;

/// The serialization of `Url::parse(url)` after `query_pairs_mut().clear()`.
pub uninterp spec fn url_with_cleared_query(url: Seq<char>) -> Option<Seq<char>>;

/// The serialization of `Url::parse(url)` after
/// `query_pairs_mut().append_pair(key, value)`.
pub uninterp spec fn url_with_pair(url: Seq<char>, key: Seq<char>, value: Seq<char>) -> Option<
    Seq<char>,
>;

/// The host (`Url::host_str`), port (`Url::port`) and path (`Url::path`) of
/// `Url::parse(text)`.
pub uninterp spec fn url_components(text: Seq<char>) -> Option<
    (Option<Seq<char>>, Option<u16>, Seq<char>),
>;

/// The `application/x-www-form-urlencoded` serialization of the pairs
/// (`form_urlencoded::Serializer::append_pair` on each, then `finish`).
pub uninterp spec fn form_encoded(pairs: Seq<(Seq<char>, Seq<char>)>) -> Seq<char>;

/// The view of a list of string pairs.
pub open spec fn pairs_view(v: Seq<(String, String)>) -> Seq<(Seq<char>, Seq<char>)> {
    v.map_values(|p: (String, String)| (p.0@, p.1@))
}

/// Parses a URL and gives back its serialization (`Url::parse`, `Url::as_str`).
#[verifier::external_body]
pub(crate) fn parse_url(text: &str) -> (r: Option<String>)
    ensures
        opt_view(r) == url_parsed(text@),
{
    url::Url::parse(text).ok().map(|u| u.to_string())
}

/// Resolves `input` against `base` (`Url::parse`, `Url::join`).
#[verifier::external_body]
pub(crate) fn join_url(base: &str, input: &str) -> (r: Option<String>)
    ensures
        opt_view(r) == url_joined(base@, input@),
{
    url::Url::parse(base).ok()?.join(input).ok().map(|u| u.to_string())
}

/// Replaces the path of a URL (`Url::parse`, `Url::set_path`).
#[verifier::external_body]
pub(crate) fn set_url_path(url: &str, path: &str) -> (r: Option<String>)
    ensures
        opt_view(r) == url_with_path(url@, path@),
{
    let mut u = url::Url::parse(url).ok()?;
    u.set_path(path);
    Some(u.to_string())
}

/// Replaces the query of a URL (`Url::parse`, `Url::set_query`).
#[verifier::external_body]
pub(crate) fn set_url_query(url: &str, query: &str) -> (r: Option<String>)
    ensures
        opt_view(r) == url_with_query(url@, query@),
{
    let mut u = url::Url::parse(url).ok()?;
    u.set_query(Some(query));
    Some(u.to_string())
}

/// Removes all query pairs (`Url::parse`, `Url::query_pairs_mut`, `Serializer::clear`).
#[verifier::external_body]
pub(crate) fn clear_url_query(url: &str) -> (r: Option<String>)
    ensures
        opt_view(r) == url_with_cleared_query(url@),
{
    let mut u = url::Url::parse(url).ok()?;
    u.query_pairs_mut().clear();
    Some(u.to_string())
}

/// Appends one query pair (`Url::parse`, `Url::query_pairs_mut`, `Serializer::append_pair`).
#[verifier::external_body]
pub(crate) fn append_url_pair(url: &str, key: &str, value: &str) -> (r: Option<String>)
    ensures
        opt_view(r) == url_with_pair(url@, key@, value@),
{
    let mut u = url::Url::parse(url).ok()?;
    u.query_pairs_mut().append_pair(key, value);
    Some(u.to_string())
}

/// The host, port and path of a URL (`Url::parse`, `Url::host_str`,
/// `Url::port`, `Url::path`).
#[verifier::external_body]
pub(crate) fn url_parts(text: &str) -> (r: Option<(Option<String>, Option<u16>, String)>)
    ensures
        match r {
            Some(p) => url_components(text@) == Some((opt_view(p.0), p.1, p.2@)),
            None => url_components(text@) is None,
        },
{
    let u = url::Url::parse(text).ok()?;
    Some((u.host_str().map(String::from), u.port(), u.path().to_string()))
}

/// Serializes name/value pairs as `application/x-www-form-urlencoded`
/// (`form_urlencoded::Serializer`).
#[verifier::external_body]
pub(crate) fn encode_form(pairs: &Vec<(String, String)>) -> (r: String)
    ensures
        r@ == form_encoded(pairs_view(pairs@)),
{
    let mut serializer = url::form_urlencoded::Serializer::new(String::new());
    serializer.extend_pairs(pairs.iter());
    serializer.finish()
}

/// Operations on a URL that keep it a URL. A URL that does not parse is left
/// as it is.
pub trait UrlExt: Sized {
    /// Removes all query pairs.
    fn clear_query_param(self) -> Self;

    /// Appends one query pair.
    fn add_query_param(self, key: &str, value: &str) -> Self;

    /// Replaces the path.
    fn reset_path(self, path: &str) -> Self;
}

/// The result of an operation, or the URL unchanged where it does not parse.
pub open spec fn or_unchanged(result: Option<Seq<char>>, url: Seq<char>) -> Seq<char> {
    match result {
        Some(u) => u,
        None => url,
    }
}

impl UrlExt for String {
    fn clear_query_param(self) -> (r: String)
        ensures
            r@ == or_unchanged(url_with_cleared_query(self@), self@),
    {
        match clear_url_query(self.as_str()) {
            Some(u) => u,
            None => self,
        }
    }

    fn add_query_param(self, key: &str, value: &str) -> (r: String)
        ensures
            r@ == or_unchanged(url_with_pair(self@, key@, value@), self@),
    {
        match append_url_pair(self.as_str(), key, value) {
            Some(u) => u,
            None => self,
        }
    }

    fn reset_path(self, path: &str) -> (r: String)
        ensures
            r@ == or_unchanged(url_with_path(self@, path@), self@),
    {
        match set_url_path(self.as_str(), path) {
            Some(u) => u,
            None => self,
        }
    }
}

} // verus!

//! File paths and URIs: conversions done by the `url` and `lsp-types` crates
//! and by `std::path`.
use std::str::FromStr;
use vstd::prelude::*;

verus! {

/// The local file path that `url::Url::to_file_path` gives for a URI, when the
/// URI parses (`url::Url::parse`), names a local file and the path is UTF-8.
pub uninterp spec fn uri_file_path(uri: Seq<char>) -> Option<Seq<char>>;

/// The serialization of the `file:` URL that `url::Url::from_file_path` makes
/// of a path (it refuses relative paths).
pub uninterp spec fn url_from_file_path(path: Seq<char>) -> Option<Seq<char>>;

/// Whether `lsp_types::Uri::from_str` accepts a text as a URI reference.
pub uninterp spec fn lsp_uri_parses(text: Seq<char>) -> bool;

/// `std::path::Path::join` of two paths.
pub uninterp spec fn joined_path(base: Seq<char>, part: Seq<char>) -> Seq<char>;

/// `std::path::Path::with_extension` of a path.
pub uninterp spec fn path_with_extension(path: Seq<char>, extension: Seq<char>) -> Seq<char>;

pub open spec fn opt_view(s: Option<String>) -> Option<Seq<char>> {
    match s {
        Some(s) => Some(s@),
        None => None,
    }
}

/// `url::Url::parse` followed by `Url::to_file_path`, with the path as text.
/// The contract claims only that the result is the named `uri_file_path`.
#[verifier::external_body]
pub(crate) fn file_path_of_uri(uri: &str) -> (path: Option<String>)
    ensures
        opt_view(path) == uri_file_path(uri@),
{
    let url = url::Url::parse(uri).ok()?;
    let path = url.to_file_path().ok()?;
    path.to_str().map(String::from)
}

/// `url::Url::from_file_path`, with the URL given back as `Url::as_str`.
#[verifier::external_body]
pub(crate) fn file_url(path: &str) -> (url: Option<String>)
    ensures
        opt_view(url) == url_from_file_path(path@),
{
    url::Url::from_file_path(path).ok().map(|u| String::from(u.as_str()))
}

/// `lsp_types::Uri::from_str`, which validates the text with
/// `fluent_uri::Uri::parse` and keeps it as it is: the contract claims that an
/// accepted text comes back unchanged. The parser panics on a text longer
/// than `i32::MAX` bytes, which `requires` leaves out.
#[verifier::external_body]
pub(crate) fn parse_lsp_uri(text: &str) -> (uri: Option<String>)
    requires
        text.len() <= i32::MAX,
    ensures
        match uri {
            Some(u) => lsp_uri_parses(text@) && u@ == text@,
            None => !lsp_uri_parses(text@),
        },
{
    lsp_types::Uri::from_str(text).ok().map(|u| String::from(u.as_str()))
}

/// `std::path::Path::join`, with the joined path as text.
#[verifier::external_body]
pub(crate) fn path_join(base: &str, part: &str) -> (joined: String)
    ensures
        joined@ == joined_path(base@, part@),
{
    std::path::Path::new(base).join(part).to_string_lossy().into_owned()
}

/// `std::path::Path::with_extension`, with the new path as text. std panics
/// when the extension holds a path separator, so the extension may hold
/// neither `/` nor a backslash.
#[verifier::external_body]
pub(crate) fn with_extension(path: &str, extension: &str) -> (changed: String)
    requires
        !extension@.contains('/'),
        !extension@.contains('\\'),
    ensures
        changed@ == path_with_extension(path@, extension@),
{
    std::path::Path::new(path).with_extension(extension).to_string_lossy().into_owned()
}

} // verus!

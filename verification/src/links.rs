//! URLs, read and rewritten by the `url` crate.
//!
//! A URL travels as text. Each function here parses the text, does one thing
//! to the URL and hands back what it then reads as; what the crate makes of
//! a text is named, not described.

use vstd::prelude::*;
use crate::text::opt_view;

verus! {

/// The parts of a URL that the rules of this library look at.
#[derive(Debug, Clone, PartialEq, Eq)]
pub struct UrlParts {
    /// The URL as the crate writes it.
    pub text: String,
    pub scheme: String,
    pub host: Option<String>,
    /// Whether the host is a domain name, and no IP address.
    pub domain: bool,
    pub path: String,
}

/// The mathematical content of `UrlParts`.
pub struct UrlPartsView {
    pub text: Seq<char>,
    pub scheme: Seq<char>,
    pub host: Option<Seq<char>>,
    pub domain: bool,
    pub path: Seq<char>,
}

impl View for UrlParts {
    type V = UrlPartsView;

    open spec fn view(&self) -> UrlPartsView {
        UrlPartsView {
            text: self.text@,
            scheme: self.scheme@,
            host: opt_view(self.host),
            domain: self.domain,
            path: self.path@,
        }
    }
}

/// The view of optional parts.
pub open spec fn opt_parts(parts: Option<UrlParts>) -> Option<UrlPartsView> {
    match parts {
        Some(p) => Some(p@),
        None => None,
    }
}

/// What `url::Url::parse` makes of `text`: the parts of the URL, or `None`
/// where the text is no absolute URL.
pub uninterp spec fn url_parts(text: Seq<char>) -> Option<UrlPartsView>;

/// The URL `text` with its path replaced by `path`, as `Url::set_path`
/// leaves it; `None` where `text` is no URL.
pub uninterp spec fn url_with_path(text: Seq<char>, path: Seq<char>) -> Option<Seq<char>>;

/// The URL `text` without its query, as `Url::set_query` leaves it when
/// given none; `None` where `text` is no URL.
pub uninterp spec fn url_without_query(text: Seq<char>) -> Option<Seq<char>>;

/// The URL `text` without its fragment, as `Url::set_fragment` leaves it
/// when given none; `None` where `text` is no URL.
pub uninterp spec fn url_without_fragment(text: Seq<char>) -> Option<Seq<char>>;

/// The reference `reference` resolved against the URL `base`, as `Url::join`
/// resolves it; `None` where `base` is no URL or the reference cannot be
/// resolved.
pub uninterp spec fn url_joined(base: Seq<char>, reference: Seq<char>) -> Option<Seq<char>>;

/// Parses `text` with `url::Url::parse` and reads the URL's parts with
/// `Url::as_str`, `Url::scheme`, `Url::host_str`, `Url::host` and
/// `Url::path`. The result is `None` where parsing fails.
#[verifier::external_body]
pub(crate) fn parse(text: &str) -> (parts: Option<UrlParts>)
    ensures
        opt_parts(parts) == url_parts(text@),
{
    let u = url::Url::parse(text).ok()?;
    Some(
        UrlParts {
            text: u.as_str().to_string(),
            scheme: u.scheme().to_string(),
            host: u.host_str().map(|h| h.to_string()),
            domain: matches!(u.host(), Some(url::Host::Domain(_))),
            path: u.path().to_string(),
        },
    )
}

/// The longest URL, and the longest path, that a path is set for, in
/// characters. The crate counts the bytes of a URL in 32 bits and panics in
/// `Url::set_path` where they do not fit; within this bound they do, the
/// path being written with twelve bytes for a character at most.
pub const LONGEST: usize = 0x400_0000;

/// Parses `text` with `url::Url::parse`, replaces the path with
/// `Url::set_path` and writes the URL out. The result is `None` where
/// parsing fails.
#[verifier::external_body]
pub(crate) fn with_path(text: &str, path: &str) -> (url: Option<String>)
    requires
        text@.len() <= LONGEST,
        path@.len() <= LONGEST,
    ensures
        opt_view(url) == url_with_path(text@, path@),
{
    let mut u = url::Url::parse(text).ok()?;
    u.set_path(path);
    Some(u.to_string())
}

/// Parses `text` with `url::Url::parse`, removes the query with
/// `Url::set_query` and writes the URL out. The result is `None` where
/// parsing fails.
#[verifier::external_body]
pub(crate) fn without_query(text: &str) -> (url: Option<String>)
    ensures
        opt_view(url) == url_without_query(text@),
{
    let mut u = url::Url::parse(text).ok()?;
    u.set_query(None);
    Some(u.to_string())
}

/// Parses `text` with `url::Url::parse`, removes the fragment with
/// `Url::set_fragment` and writes the URL out. The result is `None` where
/// parsing fails.
#[verifier::external_body]
pub(crate) fn without_fragment(text: &str) -> (url: Option<String>)
    ensures
        opt_view(url) == url_without_fragment(text@),
{
    let mut u = url::Url::parse(text).ok()?;
    u.set_fragment(None);
    Some(u.to_string())
}

/// Parses `base` with `url::Url::parse`, resolves `reference` against it
/// with `Url::join` and writes the result out. The result is `None` where
/// either step fails.
#[verifier::external_body]
pub(crate) fn join(base: &str, reference: &str) -> (url: Option<String>)
    ensures
        opt_view(url) == url_joined(base@, reference@),
{
    Some(url::Url::parse(base).ok()?.join(reference).ok()?.to_string())
}

} // verus!

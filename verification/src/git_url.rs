//! Remote references: the parts of a parsed URL and the rule that tells
//! whether they name a git repository on a known host.

use crate::text::{contains_char, ends_with, same_text};
use vstd::prelude::*;

verus! {

/// The parts of an absolute URL that the rule reads.
#[derive(Clone, Debug, PartialEq, Eq)]
pub struct UrlParts {
    /// The scheme, without the `:` that follows it.
    pub scheme: String,
    /// The host, where the URL has one.
    pub host: Option<String>,
    /// The path, up to the query or the fragment.
    pub path: String,
}

/// What a `UrlParts` holds, as character sequences.
pub struct UrlView {
    pub scheme: Seq<char>,
    pub host: Option<Seq<char>>,
    pub path: Seq<char>,
}

impl View for UrlParts {
    type V = UrlView;

    open spec fn view(&self) -> UrlView {
        UrlView {
            scheme: self.scheme@,
            host: match self.host {
                Some(h) => Some(h@),
                None => None,
            },
            path: self.path@,
        }
    }
}

/// The parts of `text` read as an absolute URL, or `None` where it is none.
pub uninterp spec fn parsed_url(text: Seq<char>) -> Option<UrlView>;

/// Parses `text` with `url::Url::parse` and copies out what `Url::scheme`,
/// `Url::host_str` and `Url::path` give for the result.
///
/// Trusted: the parse is a function of the text alone, so its outcome is
/// named `parsed_url(text@)`; nothing is claimed of what that outcome is.
#[verifier::external_body]
pub(crate) fn parse_url(text: &str) -> (parts: Option<UrlParts>)
    ensures
        match parts {
            Some(p) => parsed_url(text@) == Some(p@),
            None => parsed_url(text@) is None,
        },
{
    match url::Url::parse(text) {
        Ok(url) => Some(
            UrlParts {
                scheme: url.scheme().to_string(),
                host: url.host_str().map(|h| h.to_string()),
                path: url.path().to_string(),
            },
        ),
        Err(_) => None,
    }
}

/// The hosts whose URLs are taken for git repositories.
pub open spec fn is_git_host(host: Seq<char>) -> bool {
    host == "github.com"@ || host == "gitlab.com"@ || host == "bitbucket.org"@
}

/// A URL names a git repository when it is served over `https` by a known
/// host and its path ends in `.git` or holds a `/`.
pub open spec fn is_git_url(url: UrlView) -> bool {
    &&& url.scheme == "https"@
    &&& url.host matches Some(h) && is_git_host(h)
    &&& (".git"@.is_suffix_of(url.path) || url.path.contains('/'))
}

/// Whether `host` is one of the known git hosts.
pub fn is_known_host(host: &str) -> (known: bool)
    ensures
        known == is_git_host(host@),
{
    same_text(host, "github.com") || same_text(host, "gitlab.com")
        || same_text(host, "bitbucket.org")
}

/// Whether the URL names a git repository on a known host.
pub fn validate_git_url(url: &UrlParts) -> (valid: bool)
    ensures
        valid == is_git_url(url@),
{
    if !same_text(url.scheme.as_str(), "https") {
        return false;
    }
    let known = match &url.host {
        Some(h) => is_known_host(h.as_str()),
        None => false,
    };
    known && (ends_with(url.path.as_str(), ".git") || contains_char(url.path.as_str(), '/'))
}

} // verus!

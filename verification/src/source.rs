//! Classification of a source reference: a local directory, a git
//! repository, or neither.

use crate::git_url::{
    is_git_host, is_git_url, parse_url, parsed_url, validate_git_url, UrlParts, UrlView,
};
use vstd::prelude::*;

verus! {

/// What a source reference turned out to be.
#[derive(Clone, Copy, Debug, PartialEq, Eq, Structural)]
pub enum SourceKind {
    /// An existing directory, read in place.
    LocalDirectory,
    /// A git repository: a remote URL on a known host, or a local checkout.
    GitRepository,
    /// Neither; only the bundled defaults can serve it.
    Unknown,
}

/// What the file system holds under the source reference, read as a path.
#[derive(Clone, Copy, Debug, PartialEq, Eq, Structural)]
pub enum PathProbe {
    /// Nothing is there.
    Missing,
    /// Something is there, and it is no directory.
    NotDirectory,
    /// A directory, which may hold an entry named `.git`.
    Directory { has_git_entry: bool },
}

/// The path exists and is a directory.
pub open spec fn is_directory(probe: PathProbe) -> bool {
    probe is Directory
}

/// The path exists and holds an entry named `.git`.
pub open spec fn is_git_checkout(probe: PathProbe) -> bool {
    probe matches PathProbe::Directory { has_git_entry } && has_git_entry
}

/// A reference names a git repository when it parses as a URL that does, or
/// when it is the path of a local checkout.
pub open spec fn names_git_repository(parsed: Option<UrlView>, probe: PathProbe) -> bool {
    (parsed matches Some(url) && is_git_url(url)) || is_git_checkout(probe)
}

/// The kind of a reference, from how it parses as a URL and what the file
/// system holds under it. The tests are made in this order, and the first
/// that holds decides.
pub open spec fn kind_of(parsed: Option<UrlView>, probe: PathProbe) -> SourceKind {
    if is_directory(probe) {
        SourceKind::LocalDirectory
    } else if names_git_repository(parsed, probe) {
        SourceKind::GitRepository
    } else {
        SourceKind::Unknown
    }
}

/// The view of an optional `UrlParts`.
pub open spec fn parts_view(parsed: Option<UrlParts>) -> Option<UrlView> {
    match parsed {
        Some(p) => Some(p@),
        None => None,
    }
}

/// Whether the path of the reference is an existing directory.
pub fn is_local_directory(probe: &PathProbe) -> (local: bool)
    ensures
        local == is_directory(*probe),
{
    match probe {
        PathProbe::Directory { .. } => true,
        _ => false,
    }
}

/// Whether the reference names a git repository, given how it parsed.
pub fn is_git_reference(parsed: &Option<UrlParts>, probe: &PathProbe) -> (git: bool)
    ensures
        git == names_git_repository(parts_view(*parsed), *probe),
{
    let remote = match parsed {
        Some(url) => validate_git_url(url),
        None => false,
    };
    if remote {
        return true;
    }
    match probe {
        PathProbe::Directory { has_git_entry } => *has_git_entry,
        _ => false,
    }
}

/// Whether `source` names a git repository: a remote one by its URL, or a
/// local checkout by what the file system holds.
pub fn is_git_repository(source: &str, probe: &PathProbe) -> (git: bool)
    ensures
        git == names_git_repository(parsed_url(source@), *probe),
{
    let parsed = parse_url(source);
    is_git_reference(&parsed, probe)
}

/// The kind of a reference, given how it parsed.
pub fn classify_parsed(parsed: &Option<UrlParts>, probe: &PathProbe) -> (kind: SourceKind)
    ensures
        kind == kind_of(parts_view(*parsed), *probe),
{
    if is_local_directory(probe) {
        SourceKind::LocalDirectory
    } else if is_git_reference(parsed, probe) {
        SourceKind::GitRepository
    } else {
        SourceKind::Unknown
    }
}

/// The kind of `source`.
pub fn classify(source: &str, probe: &PathProbe) -> (kind: SourceKind)
    ensures
        kind == kind_of(parsed_url(source@), *probe),
{
    if is_local_directory(probe) {
        SourceKind::LocalDirectory
    } else if is_git_repository(source, probe) {
        SourceKind::GitRepository
    } else {
        SourceKind::Unknown
    }
}

/// An existing directory is a local directory whatever else holds of it:
/// however its name parses, and whether or not it holds a `.git` entry.
pub proof fn lemma_directory_is_local(source: Seq<char>, has_git_entry: bool)
    ensures
        kind_of(parsed_url(source), PathProbe::Directory { has_git_entry })
            == SourceKind::LocalDirectory,
{
}

/// The parts of `https://github.com/<owner>/<repo>`, with `.git` behind the
/// path where `dot_git` holds.
pub open spec fn github_url(owner: Seq<char>, repo: Seq<char>, dot_git: bool) -> UrlView {
    UrlView {
        scheme: "https"@,
        host: Some("github.com"@),
        path: "/"@ + owner + "/"@ + repo + if dot_git {
            ".git"@
        } else {
            Seq::<char>::empty()
        },
    }
}

/// A reference that parses as `https://github.com/<owner>/<repo>`, with or
/// without `.git` behind it, is classified as a git repository, unless a
/// directory of that name exists: a directory is always read in place.
pub proof fn lemma_github_url_is_git(
    source: Seq<char>,
    owner: Seq<char>,
    repo: Seq<char>,
    dot_git: bool,
    probe: PathProbe,
)
    requires
        !is_directory(probe),
    ensures
        is_git_url(github_url(owner, repo, dot_git)),
        parsed_url(source) == Some(github_url(owner, repo, dot_git)) ==> kind_of(
            parsed_url(source),
            probe,
        ) == SourceKind::GitRepository,
{
    reveal_strlit("/");
    assert(github_url(owner, repo, dot_git).path[0] == '/');
}

/// A reference that parses as a URL whose scheme is not `https` (`http`, for
/// one) or whose host is none of the known ones is of unknown kind, unless
/// it is a directory.
pub proof fn lemma_foreign_url_is_unknown(source: Seq<char>, probe: PathProbe)
    requires
        !is_directory(probe),
    ensures
        "http"@ != "https"@,
        (parsed_url(source) matches Some(url) && (url.scheme != "https"@ || !(url.host matches Some(
            h,
        ) && is_git_host(h)))) ==> kind_of(parsed_url(source), probe) == SourceKind::Unknown,
{
    reveal_strlit("http");
    reveal_strlit("https");
    assert("http"@.len() != "https"@.len());
}

/// A reference that is no URL and no directory is of unknown kind.
pub proof fn lemma_plain_text_is_unknown(source: Seq<char>, probe: PathProbe)
    requires
        !is_directory(probe),
    ensures
        parsed_url(source) is None ==> kind_of(parsed_url(source), probe) == SourceKind::Unknown,
{
}

/// The local-checkout test never decides a classification: a reference is
/// classified as a git repository only by its URL.
pub proof fn lemma_git_kind_is_remote(parsed: Option<UrlView>, probe: PathProbe)
    requires
        kind_of(parsed, probe) == SourceKind::GitRepository,
    ensures
        parsed matches Some(url) && is_git_url(url),
        !is_directory(probe),
{
}

} // verus!

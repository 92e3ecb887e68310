//! The reader: a source reference resolved to a place on disk, and the rule
//! by which it serves a named file from there or from the bundled defaults.
//!
//! The library decides and the caller acts. Construction says which
//! directory to allocate and which repository to clone; a read says which
//! file to look for. The caller performs that and hands back what happened.

use crate::bundle::{bundled_text, lookup};
use crate::error::{outcome_view, ErrorKind, ErrorView};
use crate::git_url::parsed_url;
use crate::source::{classify, is_directory, is_local_directory, kind_of, PathProbe, SourceKind};
use crate::text::text_view;
use include_dir::Dir;
use vstd::prelude::*;

verus! {

/// Serves files from a resolved source.
#[derive(Debug)]
pub struct SourceContentReader {
    path: String,
    location: Option<String>,
    source_type: SourceKind,
    temp_dir: Option<String>,
}

/// What a reader holds.
pub struct ReaderView {
    /// The reference as it was given.
    pub source: Seq<char>,
    /// What the reference was classified as.
    pub kind: SourceKind,
    /// The directory that files are read from, where there is one.
    pub location: Option<Seq<char>>,
    /// The temporary directory that was allocated for this reader, where one
    /// was. The caller owns the directory itself and removes it when the
    /// reader goes.
    pub scratch: Option<Seq<char>>,
}

impl ReaderView {
    /// A local directory is read in place and has no temporary directory; a
    /// git repository has one, and is read from there or in place; an
    /// unknown source has neither.
    pub open spec fn wf(self) -> bool {
        match self.kind {
            SourceKind::LocalDirectory => self.location == Some(self.source) && self.scratch
                is None,
            SourceKind::GitRepository => self.scratch is Some && (self.location == Some(
                self.source,
            ) || self.location == self.scratch),
            SourceKind::Unknown => self.location is None && self.scratch is None,
        }
    }
}

impl View for SourceContentReader {
    type V = ReaderView;

    closed spec fn view(&self) -> ReaderView {
        ReaderView {
            source: self.path@,
            kind: self.source_type,
            location: text_view(self.location),
            scratch: text_view(self.temp_dir),
        }
    }
}

/// A git repository that waits for its temporary directory.
#[derive(Debug)]
pub struct GitSetup {
    path: String,
    in_place: bool,
}

/// What a `GitSetup` holds.
pub struct GitSetupView {
    /// The reference as it was given.
    pub source: Seq<char>,
    /// Whether the reference is a directory on disk, to be read in place.
    pub in_place: bool,
}

impl View for GitSetup {
    type V = GitSetupView;

    closed spec fn view(&self) -> GitSetupView {
        GitSetupView { source: self.path@, in_place: self.in_place }
    }
}

/// A clone that the caller is to make: of `url`, into `directory`.
#[derive(Debug)]
pub struct CloneRequest {
    url: String,
    directory: String,
}

/// What a `CloneRequest` holds.
pub struct CloneRequestView {
    /// The repository to clone: the reference as it was given.
    pub url: Seq<char>,
    /// The temporary directory to clone into.
    pub directory: Seq<char>,
}

impl View for CloneRequest {
    type V = CloneRequestView;

    closed spec fn view(&self) -> CloneRequestView {
        CloneRequestView { url: self.url@, directory: self.directory@ }
    }
}

/// How far construction got without the caller's help.
#[derive(Debug)]
pub enum Construction {
    /// The reader is complete.
    Ready(SourceContentReader),
    /// A temporary directory is to be allocated, and its path handed to
    /// `GitSetup::setup_git_repository`.
    NeedsScratch(GitSetup),
}

/// How far the setup of a git repository got once the temporary directory
/// was there.
#[derive(Debug)]
pub enum ScratchStep {
    /// The reader is complete: the repository is read in place.
    Ready(SourceContentReader),
    /// The repository is to be cloned, and the outcome handed to
    /// `CloneRequest::finish`.
    NeedsClone(CloneRequest),
}

/// What the caller found at the resolved location under the file's name.
#[derive(Clone, Debug, PartialEq, Eq)]
pub enum LocalRead {
    /// No such file.
    Missing,
    /// The file, read in full as text.
    Contents(String),
    /// The file exists and could not be read; holds what the file system
    /// reported.
    Failed(String),
}

/// A `LocalRead` with its strings as character sequences.
pub enum LocalReadView {
    Missing,
    Contents(Seq<char>),
    Failed(Seq<char>),
}

impl View for LocalRead {
    type V = LocalReadView;

    open spec fn view(&self) -> LocalReadView {
        match self {
            LocalRead::Missing => LocalReadView::Missing,
            LocalRead::Contents(text) => LocalReadView::Contents(text@),
            LocalRead::Failed(cause) => LocalReadView::Failed(cause@),
        }
    }
}

/// How far a read got without the caller's help.
#[derive(Debug, PartialEq, Eq)]
pub enum ReadStep {
    /// The file `filename` is to be looked for in `directory`, and what was
    /// found handed to `SourceContentReader::read_local_file`.
    ReadLocal { directory: String, filename: String },
    /// The read is over.
    Done(Result<String, ErrorKind>),
}

/// What a read gives once everything is known: `local` is what was found
/// under the file's name at the resolved location, and counts only where
/// there is such a location; `default` is the text that the bundled defaults
/// hold under that name. A file that is there is returned, one that could
/// not be read is an error, and only a missing one falls back to the default.
pub open spec fn served(
    location: Option<Seq<char>>,
    local: LocalReadView,
    default: Option<Seq<char>>,
) -> Result<Seq<char>, ErrorView> {
    match (location, local) {
        (Some(_), LocalReadView::Contents(text)) => Ok(text),
        (Some(_), LocalReadView::Failed(cause)) => Err(ErrorView::IOFailure(cause)),
        _ => match default {
            Some(text) => Ok(text),
            None => Err(ErrorView::FileNotFound),
        },
    }
}

/// What a read of `name` gives against the bundle `bundle`.
pub open spec fn read_outcome(
    location: Option<Seq<char>>,
    local: LocalReadView,
    bundle: Dir<'_>,
    name: Seq<char>,
) -> Result<Seq<char>, ErrorView> {
    served(location, local, bundled_text(bundle, name))
}

/// What the bundled defaults alone give for `name`.
pub open spec fn fallback_outcome(bundle: Dir<'_>, name: Seq<char>) -> Result<
    Seq<char>,
    ErrorView,
> {
    read_outcome(None, LocalReadView::Missing, bundle, name)
}

/// Where a source of the given kind is read from, before any temporary
/// directory comes into play: a local directory in place, anything else
/// nowhere yet.
pub open spec fn resolved_at_once(source: Seq<char>, kind: SourceKind) -> ReaderView {
    ReaderView {
        source,
        kind,
        location: if kind == SourceKind::LocalDirectory {
            Some(source)
        } else {
            None
        },
        scratch: None,
    }
}

/// A file that is there at the resolved location is what a read returns,
/// whatever the bundled defaults hold under the same name.
pub proof fn lemma_resolved_location_wins(
    location: Seq<char>,
    text: Seq<char>,
    bundle: Dir<'_>,
    name: Seq<char>,
)
    ensures
        read_outcome(Some(location), LocalReadView::Contents(text), bundle, name) == Ok::<
            Seq<char>,
            ErrorView,
        >(text),
{
}

/// A read keeps nothing from one call to the next: two reads of one name
/// through one reader that find the same on disk and in the bundle return
/// the same.
pub proof fn lemma_read_is_repeatable(
    reader: ReaderView,
    first: LocalReadView,
    second: LocalReadView,
    bundle: Dir<'_>,
    name: Seq<char>,
)
    requires
        first == second,
    ensures
        read_outcome(reader.location, first, bundle, name) == read_outcome(
            reader.location,
            second,
            bundle,
            name,
        ),
{
}

/// A failure to read a file that is there is never covered up by a default.
pub proof fn lemma_read_failure_is_not_masked(
    location: Seq<char>,
    cause: Seq<char>,
    bundle: Dir<'_>,
    name: Seq<char>,
)
    ensures
        read_outcome(Some(location), LocalReadView::Failed(cause), bundle, name) == Err::<
            Seq<char>,
            ErrorView,
        >(ErrorView::IOFailure(cause)),
{
}

/// A read fails with `FileNotFound` exactly when the file is missing from
/// where it was looked for and from the bundled defaults.
pub proof fn lemma_not_found_means_missing_everywhere(
    location: Option<Seq<char>>,
    local: LocalReadView,
    bundle: Dir<'_>,
    name: Seq<char>,
)
    ensures
        read_outcome(location, local, bundle, name) == Err::<Seq<char>, ErrorView>(
            ErrorView::FileNotFound,
        ) <==> (location is Some ==> local is Missing) && bundled_text(bundle, name) is None,
{
}

impl SourceContentReader {
    #[verifier::type_invariant]
    spec fn well_formed(self) -> bool {
        self@.wf()
    }

    /// Resolves a source whose kind is known. A local directory and an
    /// unknown source are complete at once; a git repository needs a
    /// temporary directory first, whether or not it will be cloned.
    pub fn resolve(path: &str, kind: SourceKind, probe: &PathProbe) -> (step: Construction)
        ensures
            match step {
                Construction::Ready(reader) => kind != SourceKind::GitRepository && reader@
                    == resolved_at_once(path@, kind) && reader@.wf(),
                Construction::NeedsScratch(setup) => kind == SourceKind::GitRepository && setup@
                    == (GitSetupView { source: path@, in_place: is_directory(*probe) }),
            },
    {
        match kind {
            SourceKind::LocalDirectory => Construction::Ready(
                SourceContentReader {
                    path: path.to_owned(),
                    location: Some(path.to_owned()),
                    source_type: SourceKind::LocalDirectory,
                    temp_dir: None,
                },
            ),
            SourceKind::GitRepository => Construction::NeedsScratch(
                GitSetup { path: path.to_owned(), in_place: is_local_directory(probe) },
            ),
            SourceKind::Unknown => Construction::Ready(
                SourceContentReader {
                    path: path.to_owned(),
                    location: None,
                    source_type: SourceKind::Unknown,
                    temp_dir: None,
                },
            ),
        }
    }

    /// Classifies `path` and resolves it as far as that goes without a
    /// temporary directory. `probe` is what the file system holds under
    /// `path`.
    pub fn new(path: &str, probe: &PathProbe) -> (step: Construction)
        ensures
            match step {
                Construction::Ready(reader) => {
                    &&& kind_of(parsed_url(path@), *probe) != SourceKind::GitRepository
                    &&& reader@ == resolved_at_once(path@, kind_of(parsed_url(path@), *probe))
                    &&& reader@.wf()
                },
                Construction::NeedsScratch(setup) => {
                    &&& kind_of(parsed_url(path@), *probe) == SourceKind::GitRepository
                    &&& setup@ == (GitSetupView { source: path@, in_place: false })
                },
            },
    {
        let kind = classify(path, probe);
        SourceContentReader::resolve(path, kind, probe)
    }

    /// The reference as it was given.
    pub fn source(&self) -> (source: &str)
        ensures
            source@ == self@.source,
    {
        self.path.as_str()
    }

    /// What the reference was classified as. Every reader is well formed:
    /// its kind says where it reads from.
    pub fn kind(&self) -> (kind: SourceKind)
        ensures
            kind == self@.kind,
            self@.wf(),
    {
        proof {
            use_type_invariant(self);
        }
        self.source_type
    }

    /// The directory that files are read from, where there is one.
    pub fn location(&self) -> (location: Option<&str>)
        ensures
            match location {
                Some(l) => self@.location == Some(l@),
                None => self@.location is None,
            },
    {
        match &self.location {
            Some(l) => Some(l.as_str()),
            None => None,
        }
    }

    /// The temporary directory that belongs to this reader, where there is
    /// one.
    pub fn scratch(&self) -> (scratch: Option<&str>)
        ensures
            match scratch {
                Some(s) => self@.scratch == Some(s@),
                None => self@.scratch is None,
            },
    {
        match &self.temp_dir {
            Some(s) => Some(s.as_str()),
            None => None,
        }
    }

    /// Ends a read once everything is known: `local` is what was found at
    /// the resolved location, `default` what the bundled defaults hold under
    /// the file's name. A reader without a location has nothing to find, and
    /// goes by the default alone.
    pub fn serve(&self, local: LocalRead, default: Option<String>) -> (outcome: Result<
        String,
        ErrorKind,
    >)
        ensures
            outcome_view(outcome) == served(self@.location, local@, text_view(default)),
    {
        if self.location.is_some() {
            match local {
                LocalRead::Contents(text) => {
                    return Ok(text);
                },
                LocalRead::Failed(cause) => {
                    return Err(ErrorKind::IOFailure(cause));
                },
                LocalRead::Missing => {},
            }
        }
        match default {
            Some(text) => Ok(text),
            None => Err(ErrorKind::FileNotFound),
        }
    }

    /// What the bundled defaults give for `filename`: its text, or
    /// `FileNotFound`.
    pub fn read_fallback(bundle: &Dir<'_>, filename: &str) -> (outcome: Result<String, ErrorKind>)
        ensures
            outcome_view(outcome) == fallback_outcome(*bundle, filename@),
    {
        match lookup(bundle, filename) {
            Some(text) => Ok(text),
            None => Err(ErrorKind::FileNotFound),
        }
    }

    /// Ends a read of `filename`, given what was found under that name at the
    /// resolved location. A file that is there wins over the bundled default;
    /// one that could not be read is an error, not a reason to fall back.
    pub fn read_local_file(
        &self,
        filename: &str,
        local: LocalRead,
        bundle: &Dir<'_>,
    ) -> (outcome: Result<String, ErrorKind>)
        ensures
            outcome_view(outcome) == read_outcome(self@.location, local@, *bundle, filename@),
    {
        self.serve(local, lookup(bundle, filename))
    }

    /// Begins a read of `filename`. With a resolved location the file is to
    /// be looked for there; without one the bundled defaults decide at once.
    pub fn read_file_contents(&self, filename: &str, bundle: &Dir<'_>) -> (step: ReadStep)
        ensures
            match step {
                ReadStep::ReadLocal { directory, filename: name } => {
                    &&& self@.location == Some(directory@)
                    &&& name@ == filename@
                },
                ReadStep::Done(outcome) => {
                    &&& self@.location is None
                    &&& outcome_view(outcome) == fallback_outcome(*bundle, filename@)
                },
            },
    {
        match &self.location {
            Some(directory) => ReadStep::ReadLocal {
                directory: directory.clone(),
                filename: filename.to_owned(),
            },
            None => ReadStep::Done(SourceContentReader::read_fallback(bundle, filename)),
        }
    }
}

impl GitSetup {
    /// Whether the repository is a directory on disk, to be read in place.
    pub fn in_place(&self) -> (in_place: bool)
        ensures
            in_place == self@.in_place,
    {
        self.in_place
    }

    /// Goes on once the temporary directory was asked for. `scratch` is its
    /// path, or what the file system reported where none could be had. A
    /// repository on disk is read in place and the directory stays unused; a
    /// remote one is to be cloned into it.
    pub fn setup_git_repository(self, scratch: Result<String, String>) -> (step: Result<
        ScratchStep,
        ErrorKind,
    >)
        ensures
            match scratch {
                Err(cause) => step matches Err(e) && e@ == ErrorView::SourceUnavailable(cause@),
                Ok(directory) => step matches Ok(next) && match next {
                    ScratchStep::Ready(reader) => {
                        &&& self@.in_place
                        &&& reader@ == (ReaderView {
                            source: self@.source,
                            kind: SourceKind::GitRepository,
                            location: Some(self@.source),
                            scratch: Some(directory@),
                        })
                        &&& reader@.wf()
                    },
                    ScratchStep::NeedsClone(request) => {
                        &&& !self@.in_place
                        &&& request@ == (CloneRequestView {
                            url: self@.source,
                            directory: directory@,
                        })
                    },
                },
            },
    {
        let directory = match scratch {
            Ok(directory) => directory,
            Err(cause) => {
                return Err(ErrorKind::SourceUnavailable(cause));
            },
        };
        if self.in_place {
            Ok(
                ScratchStep::Ready(
                    SourceContentReader {
                        location: Some(self.path.clone()),
                        path: self.path,
                        source_type: SourceKind::GitRepository,
                        temp_dir: Some(directory),
                    },
                ),
            )
        } else {
            Ok(ScratchStep::NeedsClone(CloneRequest { url: self.path, directory }))
        }
    }
}

impl CloneRequest {
    /// The repository to clone.
    pub fn url(&self) -> (url: &str)
        ensures
            url@ == self@.url,
    {
        self.url.as_str()
    }

    /// The directory to clone into.
    pub fn directory(&self) -> (directory: &str)
        ensures
            directory@ == self@.directory,
    {
        self.directory.as_str()
    }

    /// Ends construction once the clone was tried, once. A clone that
    /// succeeded is read from the temporary directory; one that failed
    /// leaves no reader, and `outcome` holds what the transport reported.
    pub fn finish(self, outcome: Result<(), String>) -> (reader: Result<
        SourceContentReader,
        ErrorKind,
    >)
        ensures
            match outcome {
                Ok(_) => reader matches Ok(r) && r@ == (ReaderView {
                    source: self@.url,
                    kind: SourceKind::GitRepository,
                    location: Some(self@.directory),
                    scratch: Some(self@.directory),
                }) && r@.wf(),
                Err(cause) => reader matches Err(e) && e@ == ErrorView::SourceUnavailable(cause@),
            },
    {
        match outcome {
            Ok(_) => Ok(
                SourceContentReader {
                    path: self.url,
                    location: Some(self.directory.clone()),
                    source_type: SourceKind::GitRepository,
                    temp_dir: Some(self.directory),
                },
            ),
            Err(cause) => Err(ErrorKind::SourceUnavailable(cause)),
        }
    }
}

} // verus!

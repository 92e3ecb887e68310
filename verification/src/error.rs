//! The ways in which resolving a source or reading a file can fail.

use vstd::prelude::*;
use vstd::string::StringExecFns;

verus! {

/// Why a source could not be resolved or a file could not be served.
#[derive(Clone, Debug, PartialEq, Eq)]
pub enum ErrorKind {
    /// The repository could not be brought to disk; holds what the transport
    /// reported.
    SourceUnavailable(String),
    /// A file that exists at the resolved location could not be read; holds
    /// what the file system reported.
    IOFailure(String),
    /// The file is neither at the resolved location nor among the defaults.
    FileNotFound,
}

/// An `ErrorKind` with its messages as character sequences.
pub enum ErrorView {
    SourceUnavailable(Seq<char>),
    IOFailure(Seq<char>),
    FileNotFound,
}

impl View for ErrorKind {
    type V = ErrorView;

    open spec fn view(&self) -> ErrorView {
        match self {
            ErrorKind::SourceUnavailable(cause) => ErrorView::SourceUnavailable(cause@),
            ErrorKind::IOFailure(cause) => ErrorView::IOFailure(cause@),
            ErrorKind::FileNotFound => ErrorView::FileNotFound,
        }
    }
}

impl ErrorKind {
    /// The error in words, with what was reported behind a colon.
    pub fn message(&self) -> (text: String)
        ensures
            text@ == match self@ {
                ErrorView::SourceUnavailable(cause) => "source unavailable: "@ + cause,
                ErrorView::IOFailure(cause) => "read failed: "@ + cause,
                ErrorView::FileNotFound => "file not found"@,
            },
    {
        match self {
            ErrorKind::SourceUnavailable(cause) => {
                let mut text = "source unavailable: ".to_owned();
                text.append(cause.as_str());
                text
            },
            ErrorKind::IOFailure(cause) => {
                let mut text = "read failed: ".to_owned();
                text.append(cause.as_str());
                text
            },
            ErrorKind::FileNotFound => "file not found".to_owned(),
        }
    }
}

/// The view of what a read returned.
pub open spec fn outcome_view(outcome: Result<String, ErrorKind>) -> Result<Seq<char>, ErrorView> {
    match outcome {
        Ok(text) => Ok(text@),
        Err(e) => Err(e@),
    }
}

} // verus!

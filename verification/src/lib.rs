//! Resolves a source reference (a local directory, a git checkout or a remote
//! git URL) to a place on disk and serves named files from it, falling back
//! to a bundle of defaults.
//!
//! The library holds the rules and leaves the file system and the network to
//! its caller: it is told what is on disk, says what is to be done next, and
//! is told how that went.

pub mod bundle;
pub mod cli;
pub mod error;
pub mod git_url;
pub mod reader;
pub mod source;
pub mod text;

pub use crate::cli::{Cli, Commands};
pub use crate::error::ErrorKind;
pub use crate::reader::{
    CloneRequest, Construction, GitSetup, LocalRead, ReadStep, ScratchStep, SourceContentReader,
};
pub use crate::source::{PathProbe, SourceKind};

//! The command line, after parsing: what the user asked for.

use std::path::PathBuf;
use vstd::prelude::*;

verus! {

/// `std::path::PathBuf`, carried through as it is: nothing here reads it.
#[verifier::external_type_specification]
#[verifier::external_body]
pub struct ExPathBuf(PathBuf);

/// The subcommands.
#[derive(Clone, Debug, PartialEq, Eq)]
pub enum Commands {
    /// Scaffold a project in `target` from the files of `source`.
    Init { target: Option<PathBuf>, source: Option<String> },
}

/// The parsed command line.
#[derive(Clone, Debug, PartialEq, Eq)]
pub struct Cli {
    pub command: Option<Commands>,
}

impl Cli {
    /// The command line that holds `command`.
    pub fn parse_and_resolve_options(command: Option<Commands>) -> (cli: Cli)
        ensures
            cli.command == command,
    {
        Cli { command }
    }
}

} // verus!

//! The command line, once parsed.

use vstd::prelude::*;

verus! {

/// A parsed command line.
#[derive(Clone, Debug, PartialEq, Eq)]
pub struct Cli {
    pub command: Commands,
}

/// The subcommands of the tool.
#[derive(Clone, Debug, PartialEq, Eq)]
pub enum Commands {
    /// Generate a commit message and commit the changes. A message given
    /// here is used as it is, and none is generated.
    Commit { message: Option<String> },
}

} // verus!

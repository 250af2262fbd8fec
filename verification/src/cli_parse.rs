//! The command surface: plain data handed over by the argument-parsing
//! front end.

use vstd::prelude::*;

verus! {

/// One parsed invocation: the chosen command, if any. With no command the
/// tool prints its usage help.
pub struct Cli {
    pub command: Option<Commands>,
}

/// The commands the tool accepts. Multi-word titles arrive as the words of
/// the command line.
pub enum Commands {
    /// List every catalog entry.
    ListSupported,
    /// Search the catalog for names like the given title.
    Search { title: Vec<String> },
    /// Add a title with its id to the catalog.
    Add { id: u32, name: Vec<String> },
    /// Download one title.
    Download { name: Vec<String> },
    /// Download several titles in order.
    BatchDownload { titles: Vec<String> },
    /// Search the remote shop instead of the local catalog.
    NetSearch { title: Vec<String> },
}

} // verus!

//! The command-line surface of the preprocessor.
//!
//! The binary either runs the annotation pass, or answers a renderer
//! support query; argument parsing itself lives with the entry point.

use vstd::prelude::*;

verus! {

/// The parsed command line: an optional subcommand.
pub struct CliOpts {
    pub cmd: Option<Cmd>,
}

/// The subcommands the binary understands.
pub enum Cmd {
    /// Check whether a renderer is supported by this preprocessor.
    Supports { renderer: String },
}

} // verus!

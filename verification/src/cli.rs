//! The command line of the `smidr` tool, as plain values.

use vstd::prelude::*;
use crate::config::{CStandard, ProjectType};

verus! {

/// A parsed command line.
pub struct Cli {
    pub command: Commands,
}

/// The `smidr` subcommands.
pub enum Commands {
    /// Scaffold a new project (`--type static|dynamic`, `--lib`, `--std`).
    New { name: String, project_type: Option<ProjectType>, lib: bool, std: Option<CStandard> },
    /// Compile the current project (and its workspace members).
    Build { release: bool },
    /// Compile and run the current project.
    Run { release: bool },
    /// Remove the `target/` build directory.
    Clean,
    /// Clean, then compile from scratch.
    Rebuild { release: bool },
    /// Format sources and headers with clang-format.
    Format,
    /// Add a system-library dependency to `Smidr.toml`.
    Add { name: String },
    /// Remove a dependency from `Smidr.toml`.
    Remove { name: String },
}

} // verus!

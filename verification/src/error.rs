//! The single error type of the library.

use vstd::prelude::*;

verus! {

/// Every way a `smidr` command can fail. Paths are carried as strings;
/// errors raised by I/O, TOML or JSON handling are carried as their
/// message.
#[derive(Debug, Clone, PartialEq, Eq)]
pub enum BuildError {
    /// Any I/O failure (missing files, permissions, failing to spawn a
    /// process, ...).
    Io(String),
    /// A subprocess could not be started at all.
    Command(String),
    /// A subprocess ran but exited with a non-zero status code.
    CommandFailed { cmd: String, code: Option<i32> },
    /// Compiling one source file failed: the file and the error detail.
    Compile(String, String),
    /// No usable C compiler could be found.
    CompilerNotFound(String),
    /// Linking or archiving the object files failed.
    Link(String),
    /// `src/` holds no source files.
    NoSourceFiles,
    /// `include/` holds no header files.
    NoHeaderFiles,
    /// Cleaned target directory.
    Clean(String),
    /// A tool was not found.
    ToolNotFound { tool: String, hint: String },
    /// Writing `Smidr.toml` failed.
    TomlSer(String),
    /// Parsing `Smidr.toml` failed.
    TomlDe(String),
    /// `Smidr.toml` does not exist in the expected directory.
    ManifestNotFound(String),
    /// Writing `compile_commands.json` failed.
    Json(String),
    /// A dependency's `build_system` is not known: value and dependency.
    UnknownBuildSystem(String, String),
    /// `build_system = "auto"`, but no supported build system was found.
    BuildSystemDetectionFailed(String),
    /// A dependency-specific failure.
    Dependency { name: String, reason: String },
    /// `smidr new <name>`: `<name>` already exists.
    ProjectAlreadyExists(String),
    /// `smidr new <name>`: `<name>` is not a safe directory name.
    InvalidProjectName(String),
}

} // verus!

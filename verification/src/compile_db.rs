//! Entries of `compile_commands.json`, the file `clangd` and other C/C++
//! language servers read for accurate completion and diagnostics.

use vstd::prelude::*;

verus! {

/// One entry of `compile_commands.json`.
pub struct CompileCommand {
    /// The working directory the command ran from.
    pub directory: String,
    /// The source file compiled.
    pub file: String,
    /// The full compiler invocation, as one string.
    pub command: String,
    /// The object file produced.
    pub output: String,
}

} // verus!

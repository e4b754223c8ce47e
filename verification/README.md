# smidr

A `cargo`-inspired build tool for C and C++ projects, whose core is
verified with Verus.

## Layout

- `src/` - the verified library:
  - `text.rs`, `paths.rs` - string and path helpers over the character
    view of strings (trimming, splitting, `lines`, decimal numbers,
    `Path::join`/`file_name`/`extension`), with their specifications.
  - `config.rs` - the typed contents of `Smidr.toml` and profile
    resolution; `dep_table.rs` - the `[dependencies]` table, kept sorted
    by name.
  - `diagnostics.rs` - parsing gcc/clang diagnostics and rendering them
    in the `cargo` style, with the summary line.
  - `project.rs` - the project model, file selection, the dependency
    resolution state machine and scaffolding of new projects.
  - `resolver.rs` - where a dependency's source lives: system libraries,
    `path` and `git` dependencies, the latest stable tag, the shared clone
    cache and the git fetch state machine.
  - `toolchain.rs` - the recipes of the CMake, Meson, Make and custom
    dependency builders and the choice between them.
  - `builder.rs` - compiler choice, compile and link command lines, the
    build sequence (compile, `compile_commands.json`, link),
    workspaces.
- `app/` - the `smidr` program: command line, file system, processes,
  TOML and JSON. It drives the library's state machines and runs the
  commands the library plans.
- `tests/` - tests of the library's public functions.

Laws that span several functions are public proof functions whose names
start with `law_`.

//! Compiling and linking a project: which sections a build needs, which
//! compiler is used, the exact compiler and linker command lines, where
//! the artifacts go, and how a failed compile is reported.
//!
//! Running the commands is left to the caller.

use vstd::prelude::*;
use crate::config::{
    c_standard_name, BuildSection, CStandard, CompilerKind, OptLevel, ProjectSection, ProjectType,
    ResolvedProfile, WarningLevel,
};
use crate::diagnostics::{parse_line_spec, Diagnostic, DiagnosticView};
use crate::compile_db::CompileCommand;
use crate::error::BuildError;
use crate::paths::{file_name_of, file_stem, file_stem_of, join, join_path};
use crate::project::{resolved_view, Project};
use crate::resolver::{dependency_error, utf8_lossy};
use crate::text::{
    clone_strings, str_concat, lines, next_line, push_str, string_from, string_of_range, to_chars,
};
use crate::toolchain::{push_string, string_views};

verus! {

broadcast use vstd::string::group_string_axioms;

/// A compiled source file and the command that produced it.
pub struct CompiledObject {
    pub obj_path: String,
    pub compile_command: String,
}

/// Everything needed to invoke the compiler: which binary, which include
/// paths, which extra flags, and what to link from dependencies.
pub struct CompileOptions {
    pub compiler: String,
    pub includes: Vec<String>,
    pub cflags: Vec<String>,
    pub dep_libs: Vec<String>,
    pub dep_lib_dirs: Vec<String>,
}

// ---------------------------------------------------------------------
// What a build needs
// ---------------------------------------------------------------------

pub open spec fn no_project_reason() -> Seq<char> {
    "cannot build: Smidr.toml has no [project] section (this is a workspace root)"@
}

pub open spec fn no_build_reason() -> Seq<char> {
    "cannot build: Smidr.toml has no [build] section"@
}

/// A build needs both a `[project]` and a `[build]` section; a missing one
/// is reported against the project root.
pub fn build_sections(project: &Project) -> (r: Result<(&ProjectSection, &BuildSection), BuildError>)
    ensures
        project.config.project is None ==> (r is Err && dependency_error(
            r->Err_0,
            project.root@,
            no_project_reason(),
        )),
        project.config.project is Some && project.config.build is None ==> (r is Err
            && dependency_error(r->Err_0, project.root@, no_build_reason())),
        project.config.project is Some && project.config.build is Some ==> (r matches Ok((p, b))
            && *p == project.config.project->Some_0 && *b == project.config.build->Some_0),
{
    let p = match &project.config.project {
        Some(p) => p,
        None => {
            return Err(
                BuildError::Dependency {
                    name: project.root.clone(),
                    reason: string_from(
                        "cannot build: Smidr.toml has no [project] section (this is a workspace root)",
                    ),
                },
            );
        },
    };
    let b = match &project.config.build {
        Some(b) => b,
        None => {
            return Err(
                BuildError::Dependency {
                    name: project.root.clone(),
                    reason: string_from("cannot build: Smidr.toml has no [build] section"),
                },
            );
        },
    };
    Ok((p, b))
}

pub open spec fn profile_name(release: bool) -> Seq<char> {
    if release {
        "release"@
    } else {
        "debug"@
    }
}

/// `target/release` or `target/debug` under the project.
pub fn profile_build_dir(project: &Project, release: bool) -> (r: String)
    ensures
        r@ == join_path(project.build_dir@, profile_name(release)),
{
    let name = if release {
        "release"
    } else {
        "debug"
    };
    join(project.build_dir.as_str(), name)
}

// ---------------------------------------------------------------------
// Choosing the compiler
// ---------------------------------------------------------------------

/// The compilers tried, in priority order: the configured one, or for
/// `Auto` clang, tcc, the system `cc`, then gcc.
pub open spec fn compiler_candidates(kind: CompilerKind) -> Seq<Seq<char>> {
    match kind {
        CompilerKind::Gcc => seq!["gcc"@],
        CompilerKind::Tcc => seq!["tcc"@],
        CompilerKind::Clang => seq!["clang"@],
        CompilerKind::Auto => seq!["clang"@, "tcc"@, "cc"@, "gcc"@],
    }
}

/// The name reported when none of the candidates runs.
pub open spec fn compiler_not_found_name(kind: CompilerKind) -> Seq<char> {
    match kind {
        CompilerKind::Gcc => "gcc"@,
        CompilerKind::Tcc => "tcc"@,
        CompilerKind::Clang => "clang"@,
        CompilerKind::Auto => "clang, tcc, cc, gcc"@,
    }
}

/// The candidates of `kind`, in priority order.
pub fn candidates(kind: CompilerKind) -> (r: Vec<&'static str>)
    ensures
        r@.map_values(|s: &str| s@) == compiler_candidates(kind),
{
    let v: Vec<&'static str> = match kind {
        CompilerKind::Gcc => vec!["gcc"],
        CompilerKind::Tcc => vec!["tcc"],
        CompilerKind::Clang => vec!["clang"],
        CompilerKind::Auto => vec!["clang", "tcc", "cc", "gcc"],
    };
    assert(v@.map_values(|s: &str| s@) =~= compiler_candidates(kind));
    v
}

/// The next thing to do while choosing a compiler.
pub enum CompilerChoice {
    /// Check whether this compiler runs (`<name> --version`).
    Probe(&'static str),
    /// Use this compiler.
    Use(&'static str),
}

/// The first candidate known to run, if any among the first `n`.
pub open spec fn first_available(probes: Seq<bool>) -> int
    decreases probes.len(),
{
    if probes.len() == 0 {
        -1
    } else if probes[0] {
        0
    } else {
        let k = first_available(probes.drop_first());
        if k < 0 {
            -1
        } else {
            k + 1
        }
    }
}

proof fn lemma_first_available(probes: Seq<bool>)
    ensures
        -1 <= first_available(probes) < probes.len(),
        first_available(probes) >= 0 ==> probes[first_available(probes)],
        forall|j: int|
            0 <= j < probes.len() && (first_available(probes) < 0 || j < first_available(probes))
                ==> !probes[j],
    decreases probes.len(),
{
    if probes.len() > 0 && !probes[0] {
        lemma_first_available(probes.drop_first());
        assert forall|j: int|
            0 <= j < probes.len() && (first_available(probes) < 0 || j < first_available(
                probes,
            )) implies !probes[j] by {
            if j > 0 {
                assert(probes[j] == probes.drop_first()[j - 1]);
            }
        }
    }
}

/// Choose the compiler, one probe at a time: `probes[i]` tells whether the
/// `i`-th candidate of `kind` ran. The first candidate that ran is used;
/// while none did and candidates are left, the next one is probed; when
/// none is left, no compiler was found.
pub fn compiler_binary(kind: CompilerKind, probes: &Vec<bool>) -> (r: Result<CompilerChoice, BuildError>)
    requires
        probes@.len() <= compiler_candidates(kind).len(),
    ensures
        first_available(probes@) >= 0 ==> (r matches Ok(CompilerChoice::Use(c)) && c@
            == compiler_candidates(kind)[first_available(probes@)]),
        first_available(probes@) < 0 && probes@.len() < compiler_candidates(kind).len() ==> (r matches Ok(
            CompilerChoice::Probe(c),
        ) && c@ == compiler_candidates(kind)[probes@.len() as int]),
        first_available(probes@) < 0 && probes@.len() == compiler_candidates(kind).len() ==> (r matches Err(
            BuildError::CompilerNotFound(n),
        ) && n@ == compiler_not_found_name(kind)),
{
    let c = candidates(kind);
    proof {
        lemma_first_available(probes@);
    }
    let mut i: usize = 0;
    while i < probes.len()
        invariant
            i <= probes@.len() <= c@.len(),
            c@.map_values(|s: &str| s@) == compiler_candidates(kind),
            forall|j: int| 0 <= j < i ==> !probes@[j],
        decreases probes.len() - i,
    {
        if probes[i] {
            proof {
                lemma_first_available_at(probes@, i as int);
            }
            assert(c@.map_values(|s: &str| s@)[i as int] == c@[i as int]@);
            return Ok(CompilerChoice::Use(c[i]));
        }
        i = i + 1;
    }
    proof {
        lemma_first_available_none(probes@);
    }
    if i < c.len() {
        assert(c@.map_values(|s: &str| s@)[i as int] == c@[i as int]@);
        return Ok(CompilerChoice::Probe(c[i]));
    }
    let name = match kind {
        CompilerKind::Gcc => "gcc",
        CompilerKind::Tcc => "tcc",
        CompilerKind::Clang => "clang",
        CompilerKind::Auto => "clang, tcc, cc, gcc",
    };
    Err(BuildError::CompilerNotFound(string_from(name)))
}

proof fn lemma_first_available_at(probes: Seq<bool>, i: int)
    requires
        0 <= i < probes.len(),
        probes[i],
        forall|j: int| 0 <= j < i ==> !probes[j],
    ensures
        first_available(probes) == i,
    decreases probes.len(),
{
    if i > 0 {
        assert forall|j: int| 0 <= j < i - 1 implies !probes.drop_first()[j] by {
            assert(probes.drop_first()[j] == probes[j + 1]);
        }
        lemma_first_available_at(probes.drop_first(), i - 1);
    }
}

proof fn lemma_first_available_none(probes: Seq<bool>)
    requires
        forall|j: int| 0 <= j < probes.len() ==> !probes[j],
    ensures
        first_available(probes) == -1,
    decreases probes.len(),
{
    if probes.len() > 0 {
        assert forall|j: int| 0 <= j < probes.len() - 1 implies !probes.drop_first()[j] by {
            assert(probes.drop_first()[j] == probes[j + 1]);
        }
        lemma_first_available_none(probes.drop_first());
    }
}

/// The compiler used is the first candidate, in priority order, that was
/// found to run: it ran, and every candidate before it did not.
pub proof fn law_compiler_priority(kind: CompilerKind, probes: Seq<bool>)
    requires
        probes.len() <= compiler_candidates(kind).len(),
    ensures
        first_available(probes) >= 0 ==> probes[first_available(probes)] && forall|j: int|
            0 <= j < first_available(probes) ==> !probes[j],
        first_available(probes) < 0 ==> forall|j: int| 0 <= j < probes.len() ==> !probes[j],
        kind == CompilerKind::Auto ==> compiler_candidates(kind) == seq![
            "clang"@,
            "tcc"@,
            "cc"@,
            "gcc"@,
        ],
{
    lemma_first_available(probes);
}

// ---------------------------------------------------------------------
// Compile options and command lines
// ---------------------------------------------------------------------

/// The include directories of all resolved dependencies, in order.
pub open spec fn all_include_dirs(d: Seq<(Seq<char>, crate::toolchain::BuildOutputView)>) -> Seq<
    Seq<char>,
>
    decreases d.len(),
{
    if d.len() == 0 {
        seq![]
    } else {
        all_include_dirs(d.drop_last()) + d.last().1.include_dirs
    }
}

pub open spec fn all_lib_dirs(d: Seq<(Seq<char>, crate::toolchain::BuildOutputView)>) -> Seq<
    Seq<char>,
>
    decreases d.len(),
{
    if d.len() == 0 {
        seq![]
    } else {
        all_lib_dirs(d.drop_last()) + d.last().1.lib_dirs
    }
}

pub open spec fn all_libs(d: Seq<(Seq<char>, crate::toolchain::BuildOutputView)>) -> Seq<
    Seq<char>,
>
    decreases d.len(),
{
    if d.len() == 0 {
        seq![]
    } else {
        all_libs(d.drop_last()) + d.last().1.libs
    }
}

fn append_strings(out: &mut Vec<String>, v: &Vec<String>)
    ensures
        string_views(final(out)@) == string_views(old(out)@) + string_views(v@),
{
    let mut i: usize = 0;
    while i < v.len()
        invariant
            i <= v@.len(),
            string_views(out@) == string_views(old(out)@) + string_views(v@.take(i as int)),
        decreases v.len() - i,
    {
        push_string(out, v[i].clone());
        i = i + 1;
        assert(string_views(out@) =~= string_views(old(out)@) + string_views(v@.take(i as int)));
    }
    assert(v@.take(i as int) =~= v@);
}

/// The options a build compiles with: the chosen compiler; `include/`
/// then every dependency's include directories; the `[build]` cflags; the
/// dependencies' libraries and library directories.
pub fn compile_options(project: &Project, build: &BuildSection, compiler: &str) -> (r: CompileOptions)
    ensures
        r.compiler@ == compiler@,
        string_views(r.includes@) == seq![join_path(project.root@, "include"@)] + all_include_dirs(
            resolved_view(project.resolved_deps@),
        ),
        r.cflags@ == build.cflags@,
        string_views(r.dep_libs@) == all_libs(resolved_view(project.resolved_deps@)),
        string_views(r.dep_lib_dirs@) == all_lib_dirs(resolved_view(project.resolved_deps@)),
{
    let mut includes: Vec<String> = Vec::new();
    push_string(&mut includes, project.include_dir());
    let mut dep_libs: Vec<String> = Vec::new();
    let mut dep_lib_dirs: Vec<String> = Vec::new();
    let ghost first = seq![join_path(project.root@, "include"@)];
    let mut i: usize = 0;
    while i < project.resolved_deps.len()
        invariant
            i <= project.resolved_deps@.len(),
            string_views(includes@) == first + all_include_dirs(
                resolved_view(project.resolved_deps@.take(i as int)),
            ),
            string_views(dep_libs@) == all_libs(resolved_view(project.resolved_deps@.take(i as int))),
            string_views(dep_lib_dirs@) == all_lib_dirs(
                resolved_view(project.resolved_deps@.take(i as int)),
            ),
        decreases project.resolved_deps.len() - i,
    {
        let ghost prev = resolved_view(project.resolved_deps@.take(i as int));
        let ghost next = resolved_view(project.resolved_deps@.take(i + 1));
        assert(next.drop_last() =~= prev);
        assert(next.last() == (project.resolved_deps@[i as int].0@, project.resolved_deps@[i as int].1@));
        let out = &project.resolved_deps[i].1;
        append_strings(&mut includes, &out.include_dirs);
        append_strings(&mut dep_lib_dirs, &out.lib_dirs);
        append_strings(&mut dep_libs, &out.libs);
        i = i + 1;
    }
    assert(project.resolved_deps@.take(i as int) =~= project.resolved_deps@);
    CompileOptions {
        compiler: string_from(compiler),
        includes,
        cflags: clone_strings(&build.cflags),
        dep_libs,
        dep_lib_dirs,
    }
}

/// Each of `xs` behind `prefix` (`-I`, `-L`, `-l` flags).
pub open spec fn prefixed(prefix: Seq<char>, xs: Seq<Seq<char>>) -> Seq<Seq<char>> {
    Seq::new(xs.len(), |i: int| prefix + xs[i])
}

fn push_prefixed(out: &mut Vec<String>, prefix: &str, xs: &Vec<String>)
    ensures
        string_views(final(out)@) == string_views(old(out)@) + prefixed(prefix@, string_views(xs@)),
{
    let mut i: usize = 0;
    while i < xs.len()
        invariant
            i <= xs@.len(),
            string_views(out@) == string_views(old(out)@) + prefixed(
                prefix@,
                string_views(xs@.take(i as int)),
            ),
        decreases xs.len() - i,
    {
        push_string(out, str_concat(prefix, xs[i].as_str()));
        i = i + 1;
        assert(string_views(out@) =~= string_views(old(out)@) + prefixed(
            prefix@,
            string_views(xs@.take(i as int)),
        ));
    }
    assert(xs@.take(i as int) =~= xs@);
}

pub open spec fn opt_flag(o: OptLevel) -> Seq<char> {
    match o {
        OptLevel::Off => "-O0"@,
        OptLevel::Speed => "-O2"@,
        OptLevel::Size => "-Os"@,
        OptLevel::Max => "-O3"@,
    }
}

/// The flags a warning level turns into: none for `Off`, `-Wall -Wextra`
/// for `Standard`, and `-Werror -Wpedantic` on top of those for `Strict`.
pub open spec fn warning_flags(w: WarningLevel) -> Seq<Seq<char>> {
    match w {
        WarningLevel::Off => seq![],
        WarningLevel::Standard => seq!["-Wall"@, "-Wextra"@],
        WarningLevel::Strict => seq!["-Wall"@, "-Wextra"@, "-Werror"@, "-Wpedantic"@],
    }
}

/// Where the object file of `src` goes: `<stem>.o` in the build directory.
pub open spec fn object_path_of(build_dir: Seq<char>, src: Seq<char>) -> Seq<char> {
    join_path(build_dir, file_stem_of(file_name_of(src)) + ".o"@)
}

/// The object file for a source file.
pub fn object_path(build_dir: &str, src: &str) -> (r: String)
    ensures
        r@ == object_path_of(build_dir@, src@),
{
    let stem = file_stem(src);
    let name = str_concat(stem.as_str(), ".o");
    join(build_dir, name.as_str())
}

/// The compiler arguments for one source file: `-c <src> -o <obj>`, the
/// include directories as `-I` flags, the optimization flag, the warning
/// flags of the profile, `-g` when the profile keeps debug symbols, and
/// `-std=<standard>`.
pub open spec fn compile_args_spec(
    includes: Seq<Seq<char>>,
    src: Seq<char>,
    obj: Seq<char>,
    profile: ResolvedProfile,
    std: CStandard,
) -> Seq<Seq<char>> {
    seq!["-c"@, src, "-o"@, obj] + prefixed("-I"@, includes) + seq![opt_flag(profile.opt_level)]
        + warning_flags(profile.warnings) + (
    if profile.debug_symbols {
        seq!["-g"@]
    } else {
        seq![]
    }) + seq!["-std="@ + c_standard_name(std)]
}

/// The arguments the compiler is run with for `src`.
pub fn compile_args(
    opts: &CompileOptions,
    src: &str,
    obj: &str,
    profile: ResolvedProfile,
    std: CStandard,
) -> (r: Vec<String>)
    ensures
        string_views(r@) == compile_args_spec(string_views(opts.includes@), src@, obj@, profile, std),
{
    let mut a: Vec<String> = Vec::new();
    push_string(&mut a, string_from("-c"));
    push_string(&mut a, string_from(src));
    push_string(&mut a, string_from("-o"));
    push_string(&mut a, string_from(obj));
    push_prefixed(&mut a, "-I", &opts.includes);
    let flag = match profile.opt_level {
        OptLevel::Off => "-O0",
        OptLevel::Speed => "-O2",
        OptLevel::Size => "-Os",
        OptLevel::Max => "-O3",
    };
    push_string(&mut a, string_from(flag));
    match profile.warnings {
        WarningLevel::Off => {},
        WarningLevel::Standard => {
            push_string(&mut a, string_from("-Wall"));
            push_string(&mut a, string_from("-Wextra"));
        },
        WarningLevel::Strict => {
            push_string(&mut a, string_from("-Wall"));
            push_string(&mut a, string_from("-Wextra"));
            push_string(&mut a, string_from("-Werror"));
            push_string(&mut a, string_from("-Wpedantic"));
        },
    }
    if profile.debug_symbols {
        push_string(&mut a, string_from("-g"));
    }
    push_string(&mut a, str_concat("-std=", std.as_str()));
    assert(string_views(a@) =~= compile_args_spec(
        string_views(opts.includes@),
        src@,
        obj@,
        profile,
        std,
    ));
    a
}

// ---------------------------------------------------------------------
// Compile failures
// ---------------------------------------------------------------------

/// The first line of `ls` that parses as a diagnostic, if any.
pub open spec fn first_diagnostic(ls: Seq<Seq<char>>) -> Option<DiagnosticView>
    decreases ls.len(),
{
    if ls.len() == 0 {
        None
    } else {
        match parse_line_spec(ls[0]) {
            Some(d) => Some(d),
            None => first_diagnostic(ls.drop_first()),
        }
    }
}

/// The outcome of a failed compile of `src` whose compiler wrote `text`
/// to stderr: the first diagnostic in it, to be printed, and the error;
/// the error points at the printed diagnostic, or carries the whole text
/// when none parsed.
pub fn compile_failure_in(src: &str, text: &str) -> (r: (Option<Diagnostic>, BuildError))
    ensures
        match first_diagnostic(lines(text@)) {
            Some(d) => (r.0 matches Some(x) && x@ == d) && (r.1 matches BuildError::Compile(f, m)
                && f@ == src@ && m@ == "See error details above..."@),
            None => r.0 is None && (r.1 matches BuildError::Compile(f, m) && f@ == src@ && m@
                == text@),
        },
{
    let v = to_chars(text);
    let n = v.len();
    let mut pos: usize = 0;
    assert(v@.subrange(0, n as int) =~= text@);
    while pos < n
        invariant
            pos <= n == v@.len(),
            v@ == text@,
            first_diagnostic(lines(text@)) == first_diagnostic(lines(v@.subrange(pos as int, n as int))),
        decreases n - pos,
    {
        let (a, b, next) = next_line(&v, pos, n);
        let ghost ls = lines(v@.subrange(pos as int, n as int));
        assert(ls.drop_first() =~= lines(v@.subrange(next as int, n as int)));
        let line = string_of_range(&v, a, b);
        match Diagnostic::parse_line(line.as_str()) {
            Some(d) => {
                return (
                    Some(d),
                    BuildError::Compile(string_from(src), string_from("See error details above...")),
                );
            },
            None => {},
        }
        pos = next;
    }
    assert(v@.subrange(n as int, n as int) =~= Seq::<char>::empty());
    (None, BuildError::Compile(string_from(src), string_from(text)))
}

/// The outcome of a failed compile of `src`, from the compiler's stderr
/// bytes (see [`compile_failure_in`]).
pub fn compile_failure(src: &str, stderr: &[u8]) -> (r: (Option<Diagnostic>, BuildError))
    ensures
        match first_diagnostic(lines(utf8_lossy(stderr@))) {
            Some(d) => (r.0 matches Some(x) && x@ == d) && (r.1 matches BuildError::Compile(f, m)
                && f@ == src@ && m@ == "See error details above..."@),
            None => r.0 is None && (r.1 matches BuildError::Compile(f, m) && f@ == src@ && m@
                == utf8_lossy(stderr@)),
        },
{
    let text = crate::resolver::lossy_text(stderr);
    compile_failure_in(src, text.as_str())
}

// ---------------------------------------------------------------------
// Linking
// ---------------------------------------------------------------------

/// The linker (or archiver) invocation of a build.
pub struct LinkCommand {
    pub program: String,
    pub args: Vec<String>,
    /// The artifact produced.
    pub output: String,
}

/// The artifact of a build in `build_dir/bin`: the output name for a
/// binary, `lib<name>.a` for a static and `lib<name>.so` for a shared
/// library.
pub open spec fn artifact_path(build_dir: Seq<char>, t: ProjectType, name: Seq<char>) -> Seq<char> {
    join_path(
        join_path(build_dir, "bin"@),
        match t {
            ProjectType::Binary => name,
            ProjectType::StaticLibrary => "lib"@ + name + ".a"@,
            ProjectType::SharedLibrary => "lib"@ + name + ".so"@,
        },
    )
}

/// The link command of a build: for a binary, the compiler on the object
/// files with `-o`, the dependencies' `-L`/`-l` flags, the `[build]`
/// libraries as `-l`, the linker flags, then `-flto` and `-s` as the
/// profile asks; for a static library `ar rcs`; for a shared library the
/// compiler with `-shared` and the same flags but no `-flto`/`-s`.
pub open spec fn link_spec(
    t: ProjectType,
    compiler: Seq<char>,
    objects: Seq<Seq<char>>,
    out: Seq<char>,
    dep_lib_dirs: Seq<Seq<char>>,
    dep_libs: Seq<Seq<char>>,
    libs: Seq<Seq<char>>,
    linker_flags: Seq<Seq<char>>,
    profile: ResolvedProfile,
) -> (Seq<char>, Seq<Seq<char>>) {
    let flags = prefixed("-L"@, dep_lib_dirs) + prefixed("-l"@, dep_libs) + prefixed("-l"@, libs)
        + linker_flags;
    match t {
        ProjectType::Binary => (
            compiler,
            objects + seq!["-o"@, out] + flags + (if profile.lto {
                seq!["-flto"@]
            } else {
                seq![]
            }) + (if profile.strip {
                seq!["-s"@]
            } else {
                seq![]
            }),
        ),
        ProjectType::StaticLibrary => ("ar"@, seq!["rcs"@, out] + objects),
        ProjectType::SharedLibrary => (compiler, seq!["-shared"@] + objects + seq!["-o"@, out]
            + flags),
    }
}

proof fn lemma_contains_concat(a: Seq<Seq<char>>, b: Seq<Seq<char>>, x: Seq<char>)
    ensures
        (a + b).contains(x) <==> (a.contains(x) || b.contains(x)),
{
    let c = a + b;
    if c.contains(x) {
        let i = choose|i: int| 0 <= i < c.len() && c[i] == x;
        if i < a.len() {
            assert(a[i] == x);
        } else {
            assert(b[i - a.len()] == x);
        }
    }
    if a.contains(x) {
        let i = choose|i: int| 0 <= i < a.len() && a[i] == x;
        assert(c[i] == x);
    }
    if b.contains(x) {
        let i = choose|i: int| 0 <= i < b.len() && b[i] == x;
        assert(c[a.len() + i] == x);
    }
}

proof fn lemma_not_in_prefixed(prefix: Seq<char>, xs: Seq<Seq<char>>, x: Seq<char>)
    requires
        prefix.len() == 2,
        x.len() >= 2,
        x[1] != prefix[1],
    ensures
        !prefixed(prefix, xs).contains(x),
{
    let ps = prefixed(prefix, xs);
    if ps.contains(x) {
        let i = choose|i: int| 0 <= i < ps.len() && ps[i] == x;
        assert(ps[i][1] == prefix[1]);
    }
}

/// For a binary, `-s` is among the link arguments exactly when the
/// profile strips, and `-flto` exactly when it asks for link-time
/// optimization, each whatever the other is; a library is neither
/// stripped nor LTO-linked by the profile. (An object file, output path
/// or user linker flag spelled `-s` or `-flto` would itself be such an
/// argument, so those are left out.)
pub proof fn law_link_profile_flags(
    t: ProjectType,
    compiler: Seq<char>,
    objects: Seq<Seq<char>>,
    out: Seq<char>,
    dep_lib_dirs: Seq<Seq<char>>,
    dep_libs: Seq<Seq<char>>,
    libs: Seq<Seq<char>>,
    linker_flags: Seq<Seq<char>>,
    profile: ResolvedProfile,
)
    requires
        !objects.contains("-s"@),
        !objects.contains("-flto"@),
        !linker_flags.contains("-s"@),
        !linker_flags.contains("-flto"@),
        out != "-s"@,
        out != "-flto"@,
    ensures
        ({
            let args = link_spec(
                t,
                compiler,
                objects,
                out,
                dep_lib_dirs,
                dep_libs,
                libs,
                linker_flags,
                profile,
            ).1;
            &&& t == ProjectType::Binary ==> (args.contains("-s"@) <==> profile.strip)
                && (args.contains("-flto"@) <==> profile.lto)
            &&& t != ProjectType::Binary ==> !args.contains("-s"@) && !args.contains("-flto"@)
        }),
{
    reveal_strlit("-s");
    reveal_strlit("-flto");
    reveal_strlit("-L");
    reveal_strlit("-l");
    reveal_strlit("-o");
    reveal_strlit("rcs");
    reveal_strlit("-shared");
    let s = "-s"@;
    let f = "-flto"@;
    let pl = prefixed("-L"@, dep_lib_dirs);
    let pd = prefixed("-l"@, dep_libs);
    let pb = prefixed("-l"@, libs);
    let flags = pl + pd + pb + linker_flags;
    lemma_not_in_prefixed("-L"@, dep_lib_dirs, s);
    lemma_not_in_prefixed("-L"@, dep_lib_dirs, f);
    lemma_not_in_prefixed("-l"@, dep_libs, s);
    lemma_not_in_prefixed("-l"@, dep_libs, f);
    lemma_not_in_prefixed("-l"@, libs, s);
    lemma_not_in_prefixed("-l"@, libs, f);
    lemma_contains_concat(pl, pd, s);
    lemma_contains_concat(pl, pd, f);
    lemma_contains_concat(pl + pd, pb, s);
    lemma_contains_concat(pl + pd, pb, f);
    lemma_contains_concat(pl + pd + pb, linker_flags, s);
    lemma_contains_concat(pl + pd + pb, linker_flags, f);
    let o = seq!["-o"@, out];
    assert(!o.contains(s)) by {
        if o.contains(s) {
            let i = choose|i: int| 0 <= i < o.len() && o[i] == s;
            if i == 0 {
                assert(o[0][1] == 'o');
                assert(s[1] == 's');
            }
        }
    }
    assert(!o.contains(f)) by {
        if o.contains(f) {
            let i = choose|i: int| 0 <= i < o.len() && o[i] == f;
            assert(i == 0 || i == 1);
        }
    }
    lemma_contains_concat(objects, o, s);
    lemma_contains_concat(objects, o, f);
    lemma_contains_concat(objects + o, flags, s);
    lemma_contains_concat(objects + o, flags, f);
    let base = objects + o + flags;
    let lt: Seq<Seq<char>> = if profile.lto {
        seq![f]
    } else {
        seq![]
    };
    let st: Seq<Seq<char>> = if profile.strip {
        seq![s]
    } else {
        seq![]
    };
    assert(lt.contains(f) <==> profile.lto) by {
        if profile.lto {
            assert(lt[0] == f);
        }
    }
    assert(!lt.contains(s)) by {
        if lt.contains(s) {
            let i = choose|i: int| 0 <= i < lt.len() && lt[i] == s;
            assert(lt[i] == f);
        }
    }
    assert(st.contains(s) <==> profile.strip) by {
        if profile.strip {
            assert(st[0] == s);
        }
    }
    assert(!st.contains(f)) by {
        if st.contains(f) {
            let i = choose|i: int| 0 <= i < st.len() && st[i] == f;
            assert(st[i] == s);
        }
    }
    lemma_contains_concat(base, lt, s);
    lemma_contains_concat(base, lt, f);
    lemma_contains_concat(base + lt, st, s);
    lemma_contains_concat(base + lt, st, f);
    let ar = seq!["rcs"@, out];
    assert(!ar.contains(s) && !ar.contains(f)) by {
        if ar.contains(s) {
            let i = choose|i: int| 0 <= i < ar.len() && ar[i] == s;
            if i == 0 {
                assert(ar[0].len() == 3);
            }
        }
        if ar.contains(f) {
            let i = choose|i: int| 0 <= i < ar.len() && ar[i] == f;
            if i == 0 {
                assert(ar[0].len() == 3);
            }
        }
    }
    lemma_contains_concat(ar, objects, s);
    lemma_contains_concat(ar, objects, f);
    let sh = seq!["-shared"@];
    assert(!sh.contains(s) && !sh.contains(f)) by {
        if sh.contains(s) {
            let i = choose|i: int| 0 <= i < sh.len() && sh[i] == s;
            assert(sh[0].len() == 7);
        }
        if sh.contains(f) {
            let i = choose|i: int| 0 <= i < sh.len() && sh[i] == f;
            assert(sh[0].len() == 7);
        }
    }
    lemma_contains_concat(sh, objects, s);
    lemma_contains_concat(sh, objects, f);
    lemma_contains_concat(sh + objects, o, s);
    lemma_contains_concat(sh + objects, o, f);
    lemma_contains_concat(sh + objects + o, flags, s);
    lemma_contains_concat(sh + objects + o, flags, f);
}

/// The link (or archive) command for a build whose objects are
/// `objects`, in `build_dir` (the profile's directory).
pub fn link_command(
    section: &ProjectSection,
    build: &BuildSection,
    opts: &CompileOptions,
    objects: &Vec<String>,
    build_dir: &str,
    profile: ResolvedProfile,
) -> (r: LinkCommand)
    ensures
        r.output@ == artifact_path(
            build_dir@,
            section.project_type,
            crate::config::output_name_of(section),
        ),
        (r.program@, string_views(r.args@)) == link_spec(
            section.project_type,
            opts.compiler@,
            string_views(objects@),
            r.output@,
            string_views(opts.dep_lib_dirs@),
            string_views(opts.dep_libs@),
            string_views(build.libs@),
            string_views(build.linker_flags@),
            profile,
        ),
{
    let name = section.output_name();
    let bin_dir = join(build_dir, "bin");
    match section.project_type {
        ProjectType::Binary => {
            let out = join(bin_dir.as_str(), name);
            let mut a: Vec<String> = Vec::new();
            append_strings(&mut a, objects);
            push_string(&mut a, string_from("-o"));
            push_string(&mut a, out.clone());
            push_prefixed(&mut a, "-L", &opts.dep_lib_dirs);
            push_prefixed(&mut a, "-l", &opts.dep_libs);
            push_prefixed(&mut a, "-l", &build.libs);
            append_strings(&mut a, &build.linker_flags);
            if profile.lto {
                push_string(&mut a, string_from("-flto"));
            }
            if profile.strip {
                push_string(&mut a, string_from("-s"));
            }
            let r = LinkCommand { program: opts.compiler.clone(), args: a, output: out };
            assert(string_views(r.args@) =~= link_spec(
                section.project_type,
                opts.compiler@,
                string_views(objects@),
                r.output@,
                string_views(opts.dep_lib_dirs@),
                string_views(opts.dep_libs@),
                string_views(build.libs@),
                string_views(build.linker_flags@),
                profile,
            ).1);
            r
        },
        ProjectType::StaticLibrary => {
            let mut f = str_concat("lib", name);
            push_str(&mut f, ".a");
            let out = join(bin_dir.as_str(), f.as_str());
            let mut a: Vec<String> = Vec::new();
            push_string(&mut a, string_from("rcs"));
            push_string(&mut a, out.clone());
            append_strings(&mut a, objects);
            let r = LinkCommand { program: string_from("ar"), args: a, output: out };
            assert(f@ =~= "lib"@ + crate::config::output_name_of(section) + ".a"@);
            assert(string_views(r.args@) =~= seq!["rcs"@, r.output@] + string_views(objects@));
            r
        },
        ProjectType::SharedLibrary => {
            let mut f = str_concat("lib", name);
            push_str(&mut f, ".so");
            let out = join(bin_dir.as_str(), f.as_str());
            let mut a: Vec<String> = Vec::new();
            push_string(&mut a, string_from("-shared"));
            append_strings(&mut a, objects);
            push_string(&mut a, string_from("-o"));
            push_string(&mut a, out.clone());
            push_prefixed(&mut a, "-L", &opts.dep_lib_dirs);
            push_prefixed(&mut a, "-l", &opts.dep_libs);
            push_prefixed(&mut a, "-l", &build.libs);
            append_strings(&mut a, &build.linker_flags);
            let r = LinkCommand { program: opts.compiler.clone(), args: a, output: out };
            assert(f@ =~= "lib"@ + crate::config::output_name_of(section) + ".so"@);
            assert(string_views(r.args@) =~= link_spec(
                section.project_type,
                opts.compiler@,
                string_views(objects@),
                r.output@,
                string_views(opts.dep_lib_dirs@),
                string_views(opts.dep_libs@),
                string_views(build.libs@),
                string_views(build.linker_flags@),
                profile,
            ).1);
            r
        },
    }
}

/// The error for a failed link: the linker's stderr.
pub fn link_failure(stderr: &[u8]) -> (r: BuildError)
    ensures
        r matches BuildError::Link(m) && m@ == utf8_lossy(stderr@),
{
    BuildError::Link(crate::resolver::lossy_text(stderr))
}

// ---------------------------------------------------------------------
// A build, step by step
// ---------------------------------------------------------------------

/// Where a build stands.
#[derive(Debug, Clone, Copy, PartialEq, Eq, Structural)]
pub enum BuildStage {
    /// Nothing compiled yet.
    Start,
    /// Waiting for the compile of the source at `index`.
    AwaitCompile,
    /// Waiting for `compile_commands.json` to be written.
    AwaitDb,
    /// Waiting for the link.
    AwaitLink,
    /// The build succeeded or failed; nothing more to do.
    Finished,
}

/// A build of a project's sources: compile each source in order, stop at
/// the first failed compile, write `compile_commands.json` once every
/// source compiled, then link.
pub struct BuildRun<'a> {
    /// The project root (the directory of the compile commands).
    pub root: String,
    pub section: &'a ProjectSection,
    pub build: &'a BuildSection,
    pub opts: CompileOptions,
    /// The profile's build directory (`target/<profile>`).
    pub build_dir: String,
    pub profile: ResolvedProfile,
    pub sources: Vec<String>,
    /// The source compiled next, or the number compiled.
    pub index: usize,
    /// The object files of the sources compiled so far.
    pub objects: Vec<String>,
    /// The `compile_commands.json` entries of the sources compiled so far.
    pub db: Vec<CompileCommand>,
    pub stage: BuildStage,
}

/// What the caller reports back to a [`BuildRun`].
pub enum BuildEvent {
    Start,
    /// The compile ran: whether it succeeded, the command as recorded in
    /// `compile_commands.json`, and what the compiler wrote to stderr.
    Compiled { ok: bool, command: String, stderr: Vec<u8> },
    /// `compile_commands.json` was written.
    DbWritten,
    /// The link ran: whether it succeeded, and its stderr.
    Linked { ok: bool, stderr: Vec<u8> },
}

/// What the caller has to do next for a [`BuildRun`].
pub enum BuildAction {
    /// Run the compiler; answer with `BuildEvent::Compiled`.
    Compile { program: String, args: Vec<String> },
    /// Write these entries to `path`; answer with `BuildEvent::DbWritten`.
    WriteCompileDb { path: String, entries: Vec<CompileCommand> },
    /// Run the link command (its `bin` directory created); answer with
    /// `BuildEvent::Linked`.
    Link(LinkCommand),
    /// The build is complete.
    Done,
}

/// The event answers what the stage waits on; a finished build takes none.
pub open spec fn build_event_fits(stage: BuildStage, e: BuildEvent) -> bool {
    match stage {
        BuildStage::Start => e is Start,
        BuildStage::AwaitCompile => e is Compiled,
        BuildStage::AwaitDb => e is DbWritten,
        BuildStage::AwaitLink => e is Linked,
        BuildStage::Finished => false,
    }
}

/// The object file of source `i`.
pub open spec fn run_object(b: &BuildRun, i: int) -> Seq<char> {
    object_path_of(b.build_dir@, b.sources@[i]@)
}

/// The compile arguments of source `i`.
pub open spec fn run_compile_args(b: &BuildRun, i: int) -> Seq<Seq<char>> {
    compile_args_spec(
        string_views(b.opts.includes@),
        b.sources@[i]@,
        run_object(b, i),
        b.profile,
        b.section.c_standard,
    )
}

/// The entry of source `i` in `compile_commands.json`, for a compile run
/// as `command`.
pub open spec fn db_entry_of(b: &BuildRun, i: int, e: CompileCommand) -> bool {
    &&& e.directory@ == b.root@
    &&& e.file@ == b.sources@[i]@
    &&& e.output@ == run_object(b, i)
}

/// The state of a build is consistent: the first `index` sources compiled,
/// each with its object file and (until the database is written) its
/// entry; past the compiles, every source compiled.
pub open spec fn build_run_ok(b: &BuildRun) -> bool {
    let n = b.sources@.len();
    &&& b.index <= n
    &&& b.objects@.len() == b.index
    &&& forall|i: int| 0 <= i < b.index ==> #[trigger] b.objects@[i]@ == run_object(b, i)
    &&& (b.stage == BuildStage::Start ==> b.index == 0)
    &&& (b.stage == BuildStage::AwaitCompile ==> b.index < n)
    &&& (b.stage == BuildStage::Start || b.stage == BuildStage::AwaitCompile) ==> b.db@.len()
        == b.index && forall|i: int| 0 <= i < b.index ==> db_entry_of(b, i, #[trigger] b.db@[i])
    &&& (b.stage == BuildStage::AwaitDb || b.stage == BuildStage::AwaitLink) ==> b.index == n
}

/// Nothing but the progress of a build changes.
pub open spec fn same_build(a: &BuildRun, b: &BuildRun) -> bool {
    &&& a.root == b.root
    &&& a.section == b.section
    &&& a.build == b.build
    &&& a.opts == b.opts
    &&& a.build_dir == b.build_dir
    &&& a.profile == b.profile
    &&& a.sources == b.sources
}

/// The error of a failed compile of `src` whose compiler wrote `text`.
pub open spec fn failed_compile_error(e: BuildError, src: Seq<char>, text: Seq<char>) -> bool {
    match first_diagnostic(lines(text)) {
        Some(_) => e matches BuildError::Compile(f, m) && f@ == src && m@
            == "See error details above..."@,
        None => e matches BuildError::Compile(f, m) && f@ == src && m@ == text,
    }
}

/// `a` asks to compile source `i` of `b`.
pub open spec fn compiles(a: BuildAction, b: &BuildRun, i: int) -> bool {
    a matches BuildAction::Compile { program, args } && program@ == b.opts.compiler@ && string_views(
        args@,
    ) == run_compile_args(b, i)
}

/// `a` asks to link all the object files of `b`.
pub open spec fn links(a: BuildAction, b: &BuildRun) -> bool {
    a matches BuildAction::Link(l) && l.output@ == artifact_path(
        b.build_dir@,
        b.section.project_type,
        crate::config::output_name_of(b.section),
    ) && (l.program@, string_views(l.args@)) == link_spec(
        b.section.project_type,
        b.opts.compiler@,
        Seq::new(b.sources@.len(), |i: int| run_object(b, i)),
        l.output@,
        string_views(b.opts.dep_lib_dirs@),
        string_views(b.opts.dep_libs@),
        string_views(b.build.libs@),
        string_views(b.build.linker_flags@),
        b.profile,
    )
}

impl<'a> BuildRun<'a> {
    /// A build of `project` in its `release` or debug profile, compiling
    /// `sources` with `compiler`; a project without a `[project]` or a
    /// `[build]` section cannot be built ([`build_sections`]).
    pub fn new(project: &'a Project, compiler: &str, release: bool, sources: Vec<String>) -> (r:
        Result<BuildRun<'a>, BuildError>)
        ensures
            project.config.project is None ==> (r is Err && dependency_error(
                r->Err_0,
                project.root@,
                no_project_reason(),
            )),
            project.config.project is Some && project.config.build is None ==> (r is Err
                && dependency_error(r->Err_0, project.root@, no_build_reason())),
            project.config.project is Some && project.config.build is Some ==> (r matches Ok(b)
                && b.root@ == project.root@ && *b.section == project.config.project->Some_0
                && *b.build == project.config.build->Some_0 && b.opts.compiler@ == compiler@
                && string_views(b.opts.includes@) == seq![join_path(project.root@, "include"@)]
                + all_include_dirs(resolved_view(project.resolved_deps@)) && b.opts.cflags@
                == b.build.cflags@ && string_views(b.opts.dep_libs@) == all_libs(
                resolved_view(project.resolved_deps@),
            ) && string_views(b.opts.dep_lib_dirs@) == all_lib_dirs(
                resolved_view(project.resolved_deps@),
            ) && b.build_dir@ == join_path(project.build_dir@, profile_name(release))
                && b.profile == (if release {
                crate::config::resolve_profile(
                    project.config.profile.release,
                    crate::config::release_defaults(),
                )
            } else {
                crate::config::resolve_profile(
                    project.config.profile.debug,
                    crate::config::debug_defaults(),
                )
            }) && b.sources == sources && b.index == 0 && b.stage == BuildStage::Start
                && build_run_ok(&b)),
    {
        let (section, build) = build_sections(project)?;
        let opts = compile_options(project, build, compiler);
        let build_dir = profile_build_dir(project, release);
        let profile = project.config.profile_for(release);
        let r = BuildRun {
            root: project.root.clone(),
            section,
            build,
            opts,
            build_dir,
            profile,
            sources,
            index: 0,
            objects: Vec::new(),
            db: Vec::new(),
            stage: BuildStage::Start,
        };
        Ok(r)
    }

    /// Whether `e` answers what this build waits on.
    pub fn accepts(&self, e: &BuildEvent) -> (r: bool)
        ensures
            r == build_event_fits(self.stage, *e),
    {
        match (self.stage, e) {
            (BuildStage::Start, BuildEvent::Start) => true,
            (BuildStage::AwaitCompile, BuildEvent::Compiled { .. }) => true,
            (BuildStage::AwaitDb, BuildEvent::DbWritten) => true,
            (BuildStage::AwaitLink, BuildEvent::Linked { .. }) => true,
            _ => false,
        }
    }

    fn compile_action(&self, k: usize) -> (r: BuildAction)
        requires
            k < self.sources@.len(),
        ensures
            compiles(r, self, k as int),
    {
        let src = self.sources[k].as_str();
        let obj = object_path(self.build_dir.as_str(), src);
        let args = compile_args(&self.opts, src, obj.as_str(), self.profile, self.section.c_standard);
        BuildAction::Compile { program: self.opts.compiler.clone(), args }
    }

    /// One step of the build: take the caller's answer to the previous
    /// action and say what to do next. Sources compile in order; the
    /// first failed compile ends the build with its error, before any
    /// link and without `compile_commands.json`; once every source
    /// compiled, `compile_commands.json` is written with one entry per
    /// source, then everything is linked, and the build succeeds exactly
    /// when the link does.
    pub fn step(&mut self, event: BuildEvent) -> (r: Result<BuildAction, BuildError>)
        requires
            build_run_ok(old(self)),
            build_event_fits(old(self).stage, event),
        ensures
            same_build(final(self), old(self)),
            build_run_ok(final(self)),
            r is Err ==> final(self).stage == BuildStage::Finished,
            ({
                let n = old(self).sources@.len();
                let k = old(self).index as int;
                match event {
                    BuildEvent::Start => if n > 0 {
                        r matches Ok(a) && compiles(a, old(self), 0) && final(self).stage
                            == BuildStage::AwaitCompile && final(self).index == 0
                    } else {
                        (r matches Ok(BuildAction::WriteCompileDb { path, entries }) && path@
                            == join_path(old(self).root@, "compile_commands.json"@)
                            && entries@.len() == 0) && final(self).stage == BuildStage::AwaitDb
                    },
                    BuildEvent::Compiled { ok, command, stderr } => if !ok {
                        r is Err && failed_compile_error(
                            r->Err_0,
                            old(self).sources@[k]@,
                            utf8_lossy(stderr@),
                        )
                    } else if k + 1 < n {
                        (r matches Ok(a) && compiles(a, old(self), k + 1)) && final(self).stage
                            == BuildStage::AwaitCompile && final(self).index == k + 1
                            && final(self).db@.len() == k + 1 && (forall|i: int|
                            0 <= i < k ==> final(self).db@[i] == #[trigger] old(self).db@[i])
                            && db_entry_of(old(self), k, final(self).db@[k])
                            && final(self).db@[k].command == command
                    } else {
                        (r matches Ok(BuildAction::WriteCompileDb { path, entries }) && path@
                            == join_path(old(self).root@, "compile_commands.json"@)
                            && entries@.len() == n && (forall|i: int|
                            0 <= i < k ==> entries@[i] == #[trigger] old(self).db@[i])
                            && db_entry_of(old(self), k, entries@[k]) && entries@[k].command
                            == command && forall|i: int|
                            0 <= i < n ==> db_entry_of(old(self), i, #[trigger] entries@[i]))
                            && final(self).stage == BuildStage::AwaitDb
                    },
                    BuildEvent::DbWritten => (r matches Ok(a) && links(a, old(self)))
                        && final(self).stage == BuildStage::AwaitLink,
                    BuildEvent::Linked { ok, stderr } => final(self).stage == BuildStage::Finished
                        && if ok {
                        r matches Ok(BuildAction::Done)
                    } else {
                        r matches Err(BuildError::Link(m)) && m@ == utf8_lossy(stderr@)
                    },
                }
            }),
    {
        let n = self.sources.len();
        match event {
            BuildEvent::Start => {
                if n > 0 {
                    self.stage = BuildStage::AwaitCompile;
                    Ok(self.compile_action(0))
                } else {
                    self.stage = BuildStage::AwaitDb;
                    let mut entries: Vec<CompileCommand> = Vec::new();
                    std::mem::swap(&mut entries, &mut self.db);
                    Ok(
                        BuildAction::WriteCompileDb {
                            path: join(self.root.as_str(), "compile_commands.json"),
                            entries,
                        },
                    )
                }
            },
            BuildEvent::Compiled { ok, command, stderr } => {
                let k = self.index;
                if !ok {
                    self.stage = BuildStage::Finished;
                    let (_, e) = compile_failure(self.sources[k].as_str(), stderr.as_slice());
                    return Err(e);
                }
                let obj = object_path(self.build_dir.as_str(), self.sources[k].as_str());
                let entry = CompileCommand {
                    directory: self.root.clone(),
                    file: self.sources[k].clone(),
                    command,
                    output: obj.clone(),
                };
                let ghost old_db = self.db@;
                let ghost old_objects = self.objects@;
                self.db.push(entry);
                self.objects.push(obj);
                self.index = k + 1;
                assert(forall|i: int| 0 <= i < k ==> self.objects@[i] == old_objects[i]);
                assert(forall|i: int| 0 <= i < k ==> self.db@[i] == old_db[i]);
                if k + 1 < n {
                    Ok(self.compile_action(k + 1))
                } else {
                    self.stage = BuildStage::AwaitDb;
                    let mut entries: Vec<CompileCommand> = Vec::new();
                    std::mem::swap(&mut entries, &mut self.db);
                    Ok(
                        BuildAction::WriteCompileDb {
                            path: join(self.root.as_str(), "compile_commands.json"),
                            entries,
                        },
                    )
                }
            },
            BuildEvent::DbWritten => {
                assert(string_views(self.objects@) =~= Seq::new(
                    old(self).sources@.len(),
                    |i: int| run_object(old(self), i),
                ));
                let l = link_command(
                    self.section,
                    self.build,
                    &self.opts,
                    &self.objects,
                    self.build_dir.as_str(),
                    self.profile,
                );
                self.stage = BuildStage::AwaitLink;
                Ok(BuildAction::Link(l))
            },
            BuildEvent::Linked { ok, stderr } => {
                self.stage = BuildStage::Finished;
                if ok {
                    Ok(BuildAction::Done)
                } else {
                    Err(link_failure(stderr.as_slice()))
                }
            },
        }
    }
}

/// A build keeps to its order: while it is compiling, the sources compiled
/// so far are exactly the first ones, each with its object file; it is
/// never waiting on `compile_commands.json` or on the link before every
/// source compiled; and a finished build, failed or not, takes no further
/// event.
pub proof fn law_build_sequence(b: &BuildRun, e: BuildEvent)
    requires
        build_run_ok(b),
    ensures
        b.stage == BuildStage::AwaitDb || b.stage == BuildStage::AwaitLink ==> b.index
            == b.sources@.len() && forall|i: int|
            0 <= i < b.sources@.len() ==> #[trigger] b.objects@[i]@ == run_object(b, i),
        b.stage == BuildStage::AwaitCompile ==> b.index < b.sources@.len() && b.db@.len()
            == b.index,
        b.stage == BuildStage::Finished ==> !build_event_fits(b.stage, e),
{
}

// ---------------------------------------------------------------------
// Running, formatting
// ---------------------------------------------------------------------

pub open spec fn no_project_to_run_reason() -> Seq<char> {
    "cannot run: Smidr.toml has no [project] section"@
}

/// The binary `smidr run` executes: `target/<profile>/bin/<output name>`.
pub fn run_target(project: &Project, release: bool) -> (r: Result<String, BuildError>)
    ensures
        match project.config.project {
            Some(p) => r matches Ok(path) && path@ == join_path(
                join_path(join_path(project.build_dir@, profile_name(release)), "bin"@),
                crate::config::output_name_of(&p),
            ),
            None => r is Err && dependency_error(r->Err_0, project.root@, no_project_to_run_reason()),
        },
{
    match &project.config.project {
        Some(p) => {
            let dir = profile_build_dir(project, release);
            let bin = join(dir.as_str(), "bin");
            Ok(join(bin.as_str(), p.output_name()))
        },
        None => Err(
            BuildError::Dependency {
                name: project.root.clone(),
                reason: string_from("cannot run: Smidr.toml has no [project] section"),
            },
        ),
    }
}

/// The error when `clang-format` is not installed: like a missing
/// compiler, it names the tool.
pub fn clang_format_missing() -> (r: BuildError)
    ensures
        r matches BuildError::CompilerNotFound(n) && n@ == "clang-format"@,
{
    BuildError::CompilerNotFound(string_from("clang-format"))
}

/// The arguments `clang-format` runs with: in place, on every file; none
/// when there is no file to format, and then `clang-format` is not run.
pub fn fmt_args(files: &Vec<String>) -> (r: Option<Vec<String>>)
    ensures
        files@.len() == 0 ==> r is None,
        files@.len() > 0 ==> (r matches Some(a) && string_views(a@) == seq!["-i"@] + string_views(
            files@,
        )),
{
    if files.len() == 0 {
        return None;
    }
    let mut a: Vec<String> = Vec::new();
    push_string(&mut a, string_from("-i"));
    append_strings(&mut a, files);
    Some(a)
}

/// The outcome of a command the build ran to completion: `Ok` when it
/// succeeded, else `CommandFailed` with `cmd` and its exit code.
pub fn command_outcome(cmd: &str, success: bool, code: Option<i32>) -> (r: Result<(), BuildError>)
    ensures
        success ==> r is Ok,
        !success ==> (r matches Err(BuildError::CommandFailed { cmd: c, code: k }) && c@ == cmd@
            && k == code),
{
    if success {
        Ok(())
    } else {
        Err(BuildError::CommandFailed { cmd: string_from(cmd), code })
    }
}

/// The outcome of running the built binary at `path`.
pub fn run_outcome(path: &str, success: bool, code: Option<i32>) -> (r: Result<(), BuildError>)
    ensures
        success ==> r is Ok,
        !success ==> (r matches Err(BuildError::CommandFailed { cmd: c, code: k }) && c@ == path@
            && k == code),
{
    command_outcome(path, success, code)
}

/// The outcome of running `clang-format` on the files.
pub fn fmt_outcome(success: bool, code: Option<i32>) -> (r: Result<(), BuildError>)
    ensures
        success ==> r is Ok,
        !success ==> (r matches Err(BuildError::CommandFailed { cmd: c, code: k }) && c@
            == "clang-format"@ && k == code),
{
    command_outcome("clang-format", success, code)
}

// ---------------------------------------------------------------------
// Workspaces
// ---------------------------------------------------------------------

/// The member directories of the workspace a manifest declares, in
/// order, each under `root`.
pub fn workspace_members(root: &str, config: &crate::config::ManifestConfig) -> (r: Vec<String>)
    ensures
        match config.workspace {
            Some(w) => string_views(r@) == Seq::new(
                w.members@.len(),
                |i: int| join_path(root@, w.members@[i]@),
            ),
            None => r@.len() == 0,
        },
{
    let mut out: Vec<String> = Vec::new();
    match &config.workspace {
        Some(w) => {
            let mut i: usize = 0;
            while i < w.members.len()
                invariant
                    i <= w.members@.len(),
                    string_views(out@) == Seq::new(i as nat, |j: int| join_path(root@, w.members@[j]@)),
                decreases w.members.len() - i,
            {
                push_string(&mut out, join(root, w.members[i].as_str()));
                i = i + 1;
                assert(string_views(out@) =~= Seq::new(
                    i as nat,
                    |j: int| join_path(root@, w.members@[j]@),
                ));
            }
        },
        None => {},
    }
    out
}

/// The projects `smidr build` builds, in order: every workspace member,
/// then the root itself when it has a `[project]` section (a pure
/// organizational root only builds its members).
pub fn build_targets(cwd: &str, config: &crate::config::ManifestConfig) -> (r: Vec<String>)
    ensures
        string_views(r@) == (match config.workspace {
            Some(w) => Seq::new(w.members@.len(), |i: int| join_path(cwd@, w.members@[i]@)),
            None => Seq::<Seq<char>>::empty(),
        }) + (if config.project is Some {
            seq![cwd@]
        } else {
            Seq::<Seq<char>>::empty()
        }),
{
    let mut v = workspace_members(cwd, config);
    let ghost members = string_views(v@);
    if config.project.is_some() {
        push_string(&mut v, string_from(cwd));
    }
    assert(string_views(v@) =~= members + (if config.project is Some {
        seq![cwd@]
    } else {
        Seq::<Seq<char>>::empty()
    }));
    v
}

pub open spec fn run_workspace_root_reason() -> Seq<char> {
    "cannot run: this Smidr.toml has no [project] section (workspace root only). Run from inside a specific member directory instead."@
}

/// `smidr run` needs a `[project]` section in the current manifest; a pure
/// workspace root is refused, reported against the current directory.
pub fn check_runnable(cwd: &str, config: &crate::config::ManifestConfig) -> (r: Result<(), BuildError>)
    ensures
        config.project is Some ==> r is Ok,
        config.project is None ==> (r is Err && dependency_error(
            r->Err_0,
            cwd@,
            run_workspace_root_reason(),
        )),
{
    if config.project.is_none() {
        return Err(
            BuildError::Dependency {
                name: string_from(cwd),
                reason: string_from(
                    "cannot run: this Smidr.toml has no [project] section (workspace root only). Run from inside a specific member directory instead.",
                ),
            },
        );
    }
    Ok(())
}

} // verus!

//! Build systems for dependencies: CMake, Meson, a plain Makefile, or
//! user-supplied shell commands.
//!
//! Each builder is described by the commands it runs (its recipe) and by
//! what the install prefix then provides; running the commands is left to
//! the caller. [`resolve_builder`] picks the builder for a dependency.

use vstd::prelude::*;
use crate::config::{BuildSystemKind, DependencySpec};
use crate::error::BuildError;
use crate::paths::{join, join_path};
use crate::text::{clone_strings, push_str, replace, replace_all, str_concat, str_eq, string_from};

verus! {

broadcast use vstd::string::group_string_axioms;

pub open spec fn string_views(v: Seq<String>) -> Seq<Seq<char>> {
    v.map_values(|s: String| s@)
}

/// Appends `s` to `v`.
pub fn push_string(v: &mut Vec<String>, s: String)
    ensures
        string_views(final(v)@) == string_views(old(v)@).push(s@),
{
    v.push(s);
    assert(string_views(v@) =~= string_views(old(v)@).push(s@));
}

/// The owned strings `a`, `b`, ... in order.
pub fn strings_of(lits: &[&str]) -> (r: Vec<String>)
    ensures
        string_views(r@) == Seq::new(lits@.len(), |i: int| lits@[i]@),
{
    let mut out: Vec<String> = Vec::new();
    let mut i: usize = 0;
    while i < lits.len()
        invariant
            i <= lits@.len(),
            string_views(out@) == Seq::new(i as nat, |j: int| lits@[j]@),
        decreases lits.len() - i,
    {
        push_string(&mut out, string_from(lits[i]));
        i = i + 1;
        assert(string_views(out@) =~= Seq::new(i as nat, |j: int| lits@[j]@));
    }
    out
}

/// What building a dependency produces: everything needed to compile and
/// link a project against it.
pub struct BuildOutput {
    /// Directories to add as `-I` flags.
    pub include_dirs: Vec<String>,
    /// Directories to add as `-L` flags.
    pub lib_dirs: Vec<String>,
    /// Library names to add as `-l` flags.
    pub libs: Vec<String>,
}

#[verifier::ext_equal]
pub ghost struct BuildOutputView {
    pub include_dirs: Seq<Seq<char>>,
    pub lib_dirs: Seq<Seq<char>>,
    pub libs: Seq<Seq<char>>,
}

impl View for BuildOutput {
    type V = BuildOutputView;

    open spec fn view(&self) -> BuildOutputView {
        BuildOutputView {
            include_dirs: string_views(self.include_dirs@),
            lib_dirs: string_views(self.lib_dirs@),
            libs: string_views(self.libs@),
        }
    }
}

impl BuildOutput {
    /// An output with nothing in it.
    pub fn new() -> (r: BuildOutput)
        ensures
            r@.include_dirs.len() == 0,
            r@.lib_dirs.len() == 0,
            r@.libs.len() == 0,
    {
        BuildOutput { include_dirs: Vec::new(), lib_dirs: Vec::new(), libs: Vec::new() }
    }

    /// A copy of this output.
    pub fn copy(&self) -> (r: BuildOutput)
        ensures
            r@ == self@,
    {
        BuildOutput {
            include_dirs: clone_strings(&self.include_dirs),
            lib_dirs: clone_strings(&self.lib_dirs),
            libs: clone_strings(&self.libs),
        }
    }
}

/// One command of a dependency build, run in `cwd`.
///
/// A non-zero exit is reported as `BuildError::CommandFailed` (the command
/// is echoed before it runs), unless `failure_reason` is set: then the
/// command runs silently and a non-zero exit is reported as
/// `BuildError::Dependency { name: cwd, reason: failure_reason }`.
pub struct BuildStep {
    pub program: String,
    pub args: Vec<String>,
    pub cwd: String,
    pub failure_reason: Option<String>,
}

#[verifier::ext_equal]
pub ghost struct StepView {
    pub program: Seq<char>,
    pub args: Seq<Seq<char>>,
    pub cwd: Seq<char>,
    pub failure_reason: Option<Seq<char>>,
}

impl View for BuildStep {
    type V = StepView;

    open spec fn view(&self) -> StepView {
        StepView {
            program: self.program@,
            args: string_views(self.args@),
            cwd: self.cwd@,
            failure_reason: match self.failure_reason {
                Some(r) => Some(r@),
                None => None,
            },
        }
    }
}

pub open spec fn steps_view(v: Seq<BuildStep>) -> Seq<StepView> {
    v.map_values(|s: BuildStep| s@)
}

pub open spec fn step(program: Seq<char>, args: Seq<Seq<char>>, cwd: Seq<char>) -> StepView {
    StepView { program, args, cwd, failure_reason: None }
}

fn make_step(program: &str, args: Vec<String>, cwd: &str) -> (r: BuildStep)
    ensures
        r@ == step(program@, string_views(args@), cwd@),
{
    BuildStep {
        program: string_from(program),
        args,
        cwd: string_from(cwd),
        failure_reason: None,
    }
}

/// The standard `include/` + `lib/` (`lib64/`) layout that CMake, Meson
/// and Make install into; `has_lib`/`has_lib64` tell which of the two
/// library directories exist under `prefix`.
pub open spec fn prefix_output(prefix: Seq<char>, has_lib: bool, has_lib64: bool) -> BuildOutputView {
    BuildOutputView {
        include_dirs: seq![join_path(prefix, "include"@)],
        lib_dirs: (if has_lib {
            seq![join_path(prefix, "lib"@)]
        } else {
            seq![]
        }) + (if has_lib64 {
            seq![join_path(prefix, "lib64"@)]
        } else {
            seq![]
        }),
        libs: seq![],
    }
}

/// What an install prefix provides (`include/`, and whichever of `lib/`
/// and `lib64/` exist).
pub fn collect_from_prefix(prefix: &str, has_lib: bool, has_lib64: bool) -> (r: BuildOutput)
    ensures
        r@ == prefix_output(prefix@, has_lib, has_lib64),
{
    let mut lib_dirs: Vec<String> = Vec::new();
    if has_lib {
        push_string(&mut lib_dirs, join(prefix, "lib"));
    }
    if has_lib64 {
        push_string(&mut lib_dirs, join(prefix, "lib64"));
    }
    let mut include_dirs: Vec<String> = Vec::new();
    push_string(&mut include_dirs, join(prefix, "include"));
    let r = BuildOutput { include_dirs, lib_dirs, libs: Vec::new() };
    assert(r@ =~= prefix_output(prefix@, has_lib, has_lib64));
    assert(r@.lib_dirs =~= prefix_output(prefix@, has_lib, has_lib64).lib_dirs);
    r
}

/// The contract every dependency build system implements.
pub trait DepBuilder {
    /// Whether this build system looks usable for a source directory whose
    /// entries are named `entries`.
    fn detect(entries: &Vec<String>) -> bool
        where Self: Sized
    ;

    /// A short, human-readable name for this build system.
    fn name(&self) -> &'static str;

    /// The commands that build the dependency in `src_dir` and install it
    /// into `prefix`, in order; `has_configure` tells whether `src_dir`
    /// holds a `configure` script.
    fn build_steps(&self, src_dir: &str, prefix: &str, has_configure: bool) -> Result<
        Vec<BuildStep>,
        BuildError,
    >;

    /// What the installed prefix provides.
    fn output(&self, prefix: &str, has_lib: bool, has_lib64: bool) -> BuildOutput;
}

pub open spec fn names_contain(entries: Seq<String>, name: Seq<char>) -> bool {
    exists|i: int| 0 <= i < entries.len() && #[trigger] entries[i]@ == name
}

#[verifier::loop_isolation(false)]
fn has_entry(entries: &Vec<String>, name: &str) -> (r: bool)
    ensures
        r == names_contain(entries@, name@),
{
    let mut i: usize = 0;
    while i < entries.len()
        invariant
            i <= entries@.len(),
            forall|j: int| 0 <= j < i ==> entries@[j]@ != name@,
        decreases entries.len() - i,
    {
        if str_eq(entries[i].as_str(), name) {
            return true;
        }
        i = i + 1;
    }
    false
}

// ---------------------------------------------------------------------
// CMake
// ---------------------------------------------------------------------

/// Builds a dependency with `cmake` (configure, build, install).
pub struct CMakeBuilder;

pub open spec fn cmake_steps(src_dir: Seq<char>, prefix: Seq<char>) -> Seq<StepView> {
    seq![
        step(
            "cmake"@,
            seq![
                "-S"@,
                "."@,
                "-B"@,
                "build"@,
                "-DCMAKE_INSTALL_PREFIX="@ + prefix,
                "-DCMAKE_BUILD_TYPE=Release"@,
                "-DCMAKE_POLICY_VERSION_MINIMUM=3.5"@,
            ],
            src_dir,
        ),
        step("cmake"@, seq!["--build"@, "build"@, "--parallel"@], src_dir),
        step("cmake"@, seq!["--install"@, "build"@], src_dir),
    ]
}

impl DepBuilder for CMakeBuilder {
    /// CMake is detected by a `CMakeLists.txt`.
    fn detect(entries: &Vec<String>) -> (r: bool)
        ensures
            r == names_contain(entries@, "CMakeLists.txt"@),
    {
        has_entry(entries, "CMakeLists.txt")
    }

    fn name(&self) -> (r: &'static str)
        ensures
            r@ == "cmake"@,
    {
        "cmake"
    }

    /// Configure into `build/` with `CMAKE_INSTALL_PREFIX` set to `prefix`,
    /// build, then install.
    fn build_steps(&self, src_dir: &str, prefix: &str, has_configure: bool) -> (r: Result<
        Vec<BuildStep>,
        BuildError,
    >)
        ensures
            r matches Ok(v) && steps_view(v@) == cmake_steps(src_dir@, prefix@),
    {
        let mut steps: Vec<BuildStep> = Vec::new();
        let mut a = strings_of(&["-S", ".", "-B", "build"]);
        push_string(&mut a, str_concat("-DCMAKE_INSTALL_PREFIX=", prefix));
        push_string(&mut a, string_from("-DCMAKE_BUILD_TYPE=Release"));
        push_string(&mut a, string_from("-DCMAKE_POLICY_VERSION_MINIMUM=3.5"));
        steps.push(make_step("cmake", a, src_dir));
        steps.push(make_step("cmake", strings_of(&["--build", "build", "--parallel"]), src_dir));
        steps.push(make_step("cmake", strings_of(&["--install", "build"]), src_dir));
        assert(steps_view(steps@) =~= cmake_steps(src_dir@, prefix@)) by {
            assert(steps_view(steps@)[0].args =~= cmake_steps(src_dir@, prefix@)[0].args);
            assert(steps_view(steps@)[1].args =~= cmake_steps(src_dir@, prefix@)[1].args);
            assert(steps_view(steps@)[2].args =~= cmake_steps(src_dir@, prefix@)[2].args);
        }
        Ok(steps)
    }

    fn output(&self, prefix: &str, has_lib: bool, has_lib64: bool) -> (r: BuildOutput)
        ensures
            r@ == prefix_output(prefix@, has_lib, has_lib64),
    {
        collect_from_prefix(prefix, has_lib, has_lib64)
    }
}

// ---------------------------------------------------------------------
// Meson
// ---------------------------------------------------------------------

/// Builds a dependency with `meson` (setup, compile, install).
pub struct MesonBuilder;

pub open spec fn meson_steps(src_dir: Seq<char>, prefix: Seq<char>) -> Seq<StepView> {
    seq![
        step(
            "meson"@,
            seq!["setup"@, "build"@, "--prefix="@ + prefix, "--buildtype=release"@],
            src_dir,
        ),
        step("meson"@, seq!["compile"@, "-C"@, "build"@], src_dir),
        step("meson"@, seq!["install"@, "-C"@, "build"@], src_dir),
    ]
}

impl DepBuilder for MesonBuilder {
    /// Meson is detected by a `meson.build`.
    fn detect(entries: &Vec<String>) -> (r: bool)
        ensures
            r == names_contain(entries@, "meson.build"@),
    {
        has_entry(entries, "meson.build")
    }

    fn name(&self) -> (r: &'static str)
        ensures
            r@ == "meson"@,
    {
        "meson"
    }

    /// Set up a release build in `build/` with `--prefix` set to `prefix`,
    /// compile, then install.
    fn build_steps(&self, src_dir: &str, prefix: &str, has_configure: bool) -> (r: Result<
        Vec<BuildStep>,
        BuildError,
    >)
        ensures
            r matches Ok(v) && steps_view(v@) == meson_steps(src_dir@, prefix@),
    {
        let mut steps: Vec<BuildStep> = Vec::new();
        let mut a = strings_of(&["setup", "build"]);
        push_string(&mut a, str_concat("--prefix=", prefix));
        push_string(&mut a, string_from("--buildtype=release"));
        steps.push(make_step("meson", a, src_dir));
        steps.push(make_step("meson", strings_of(&["compile", "-C", "build"]), src_dir));
        steps.push(make_step("meson", strings_of(&["install", "-C", "build"]), src_dir));
        assert(steps_view(steps@) =~= meson_steps(src_dir@, prefix@)) by {
            assert(steps_view(steps@)[0].args =~= meson_steps(src_dir@, prefix@)[0].args);
            assert(steps_view(steps@)[1].args =~= meson_steps(src_dir@, prefix@)[1].args);
            assert(steps_view(steps@)[2].args =~= meson_steps(src_dir@, prefix@)[2].args);
        }
        Ok(steps)
    }

    fn output(&self, prefix: &str, has_lib: bool, has_lib64: bool) -> (r: BuildOutput)
        ensures
            r@ == prefix_output(prefix@, has_lib, has_lib64),
    {
        collect_from_prefix(prefix, has_lib, has_lib64)
    }
}

// ---------------------------------------------------------------------
// Make
// ---------------------------------------------------------------------

/// Builds a dependency with a plain Makefile, preceded by an Autotools
/// `./configure --prefix` when there is a `configure` script.
pub struct MakeBuilder;

pub open spec fn make_install_reason() -> Seq<char> {
    "`make install PREFIX=...` did not work - this Makefile may not support PREFIX=. Set build_system = \"custom\" with explicit build_commands in Smidr.toml"@
}

pub open spec fn make_steps(src_dir: Seq<char>, prefix: Seq<char>, has_configure: bool) -> Seq<
    StepView,
> {
    (if has_configure {
        seq![step("./configure"@, seq!["--prefix="@ + prefix], src_dir)]
    } else {
        seq![]
    }) + seq![
        step("make"@, seq![], src_dir),
        StepView {
            program: "make"@,
            args: seq!["PREFIX="@ + prefix, "install"@],
            cwd: src_dir,
            failure_reason: Some(make_install_reason()),
        },
    ]
}

impl DepBuilder for MakeBuilder {
    /// A bare Makefile is detected by `Makefile` or `makefile`.
    fn detect(entries: &Vec<String>) -> (r: bool)
        ensures
            r == (names_contain(entries@, "Makefile"@) || names_contain(entries@, "makefile"@)),
    {
        has_entry(entries, "Makefile") || has_entry(entries, "makefile")
    }

    fn name(&self) -> (r: &'static str)
        ensures
            r@ == "make"@,
    {
        "make"
    }

    /// `./configure --prefix=<prefix>` when there is a `configure` script,
    /// then `make`, then `make PREFIX=<prefix> install`, whose failure most
    /// likely means that the Makefile does not support `PREFIX=`.
    fn build_steps(&self, src_dir: &str, prefix: &str, has_configure: bool) -> (r: Result<
        Vec<BuildStep>,
        BuildError,
    >)
        ensures
            r matches Ok(v) && steps_view(v@) == make_steps(src_dir@, prefix@, has_configure),
    {
        let mut steps: Vec<BuildStep> = Vec::new();
        if has_configure {
            let mut a: Vec<String> = Vec::new();
            push_string(&mut a, str_concat("--prefix=", prefix));
            steps.push(make_step("./configure", a, src_dir));
        }
        steps.push(make_step("make", Vec::new(), src_dir));
        let mut a: Vec<String> = Vec::new();
        push_string(&mut a, str_concat("PREFIX=", prefix));
        push_string(&mut a, string_from("install"));
        steps.push(
            BuildStep {
                program: string_from("make"),
                args: a,
                cwd: string_from(src_dir),
                failure_reason: Some(
                    string_from(
                        "`make install PREFIX=...` did not work - this Makefile may not support PREFIX=. Set build_system = \"custom\" with explicit build_commands in Smidr.toml",
                    ),
                ),
            },
        );
        proof {
            let e = make_steps(src_dir@, prefix@, has_configure);
            let g = steps_view(steps@);
            assert(g.len() == e.len());
            assert forall|i: int| 0 <= i < g.len() implies g[i] == e[i] by {
                assert(g[i].args =~= e[i].args);
            }
            assert(g =~= e);
        }
        Ok(steps)
    }

    fn output(&self, prefix: &str, has_lib: bool, has_lib64: bool) -> (r: BuildOutput)
        ensures
            r@ == prefix_output(prefix@, has_lib, has_lib64),
    {
        collect_from_prefix(prefix, has_lib, has_lib64)
    }
}

// ---------------------------------------------------------------------
// Custom commands
// ---------------------------------------------------------------------

/// Runs the shell commands listed under `build_commands` when no built-in
/// build system applies. Running a `Smidr.toml` from an untrusted source
/// is running its shell commands.
pub struct CustomBuilder {
    pub commands: Vec<String>,
    pub libs: Vec<String>,
    pub extra_includes: Vec<String>,
}

pub open spec fn custom_empty_reason() -> Seq<char> {
    "build_system = \"custom\", but build_commands is empty in Smidr.toml"@
}

/// `sh -c <command>` in `src_dir` for each command, with `$SMIDR_PREFIX`
/// replaced by the install prefix.
pub open spec fn custom_steps(commands: Seq<Seq<char>>, src_dir: Seq<char>, prefix: Seq<char>) -> Seq<
    StepView,
> {
    Seq::new(
        commands.len(),
        |i: int|
            step(
                "sh"@,
                seq!["-c"@, replace_all(commands[i], "$SMIDR_PREFIX"@, prefix)],
                src_dir,
            ),
    )
}

/// The prefix layout, the libraries listed under `libs`, and each
/// `extra_includes` entry under the prefix.
pub open spec fn custom_output(
    prefix: Seq<char>,
    has_lib: bool,
    has_lib64: bool,
    libs: Seq<Seq<char>>,
    extra: Seq<Seq<char>>,
) -> BuildOutputView {
    let base = prefix_output(prefix, has_lib, has_lib64);
    BuildOutputView {
        include_dirs: base.include_dirs + Seq::new(extra.len(), |i: int| join_path(prefix, extra[i])),
        lib_dirs: base.lib_dirs,
        libs,
    }
}

/// `c` holds the commands, libraries and extra include directories of
/// `spec` (none for a version-only dependency).
pub open spec fn custom_from(c: CustomBuilder, spec: DependencySpec) -> bool {
    match spec {
        DependencySpec::Detailed { build_commands, libs, extra_includes, .. } => c.commands@
            == build_commands@ && c.libs@ == libs@ && c.extra_includes@ == extra_includes@,
        DependencySpec::Version(_) => c.commands@.len() == 0 && c.libs@.len() == 0
            && c.extra_includes@.len() == 0,
    }
}

impl CustomBuilder {
    /// A [`CustomBuilder`] from a dependency's configuration, taking only
    /// the fields it needs (none for a version-only dependency).
    pub fn new(spec: &DependencySpec) -> (r: CustomBuilder)
        ensures
            custom_from(r, *spec),
    {
        match spec {
            DependencySpec::Detailed { build_commands, libs, extra_includes, .. } => CustomBuilder {
                commands: clone_strings(build_commands),
                libs: clone_strings(libs),
                extra_includes: clone_strings(extra_includes),
            },
            DependencySpec::Version(_) => CustomBuilder {
                commands: Vec::new(),
                libs: Vec::new(),
                extra_includes: Vec::new(),
            },
        }
    }
}

impl DepBuilder for CustomBuilder {
    /// Never detected: `custom` runs only when asked for explicitly.
    fn detect(entries: &Vec<String>) -> (r: bool)
        ensures
            !r,
    {
        false
    }

    fn name(&self) -> (r: &'static str)
        ensures
            r@ == "custom"@,
    {
        "custom"
    }

    /// Each command in order through `sh -c` in `src_dir`, after
    /// substituting `$SMIDR_PREFIX`; an empty command list is an error.
    fn build_steps(&self, src_dir: &str, prefix: &str, has_configure: bool) -> (r: Result<
        Vec<BuildStep>,
        BuildError,
    >)
        ensures
            self.commands@.len() == 0 ==> (r matches Err(BuildError::Dependency { name, reason })
                && name@ == src_dir@ && reason@ == custom_empty_reason()),
            self.commands@.len() > 0 ==> (r matches Ok(v) && steps_view(v@) == custom_steps(
                string_views(self.commands@),
                src_dir@,
                prefix@,
            )),
    {
        if self.commands.len() == 0 {
            return Err(
                BuildError::Dependency {
                    name: string_from(src_dir),
                    reason: string_from(
                        "build_system = \"custom\", but build_commands is empty in Smidr.toml",
                    ),
                },
            );
        }
        let mut steps: Vec<BuildStep> = Vec::new();
        let mut i: usize = 0;
        let ghost target = custom_steps(string_views(self.commands@), src_dir@, prefix@);
        proof {
            reveal_strlit("$SMIDR_PREFIX");
        }
        while i < self.commands.len()
            invariant
                i <= self.commands@.len(),
                target == custom_steps(string_views(self.commands@), src_dir@, prefix@),
                "$SMIDR_PREFIX"@.len() > 0,
                steps_view(steps@) == target.take(i as int),
            decreases self.commands.len() - i,
        {
            let mut a: Vec<String> = Vec::new();
            push_string(&mut a, string_from("-c"));
            push_string(&mut a, replace(self.commands[i].as_str(), "$SMIDR_PREFIX", prefix));
            let st = make_step("sh", a, src_dir);
            assert(st@ == target[i as int]) by {
                assert(st@.args =~= target[i as int].args);
            }
            let ghost prev = steps_view(steps@);
            steps.push(st);
            assert(steps_view(steps@) =~= prev.push(target[i as int]));
            assert(target.take(i + 1) =~= target.take(i as int).push(target[i as int]));
            i = i + 1;
            assert(steps_view(steps@) =~= target.take(i as int));
        }
        assert(target.take(i as int) =~= target);
        Ok(steps)
    }

    fn output(&self, prefix: &str, has_lib: bool, has_lib64: bool) -> (r: BuildOutput)
        ensures
            r@ == custom_output(
                prefix@,
                has_lib,
                has_lib64,
                string_views(self.libs@),
                string_views(self.extra_includes@),
            ),
    {
        let mut out = collect_from_prefix(prefix, has_lib, has_lib64);
        let ghost pre = out@;
        out.libs = clone_strings(&self.libs);
        let ghost base = out.include_dirs@;
        let ghost pre_lib_dirs = out.lib_dirs@;
        let mut i: usize = 0;
        while i < self.extra_includes.len()
            invariant
                i <= self.extra_includes@.len(),
                out.libs@ == self.libs@,
                out.lib_dirs@ == pre_lib_dirs,
                string_views(pre_lib_dirs) == prefix_output(prefix@, has_lib, has_lib64).lib_dirs,
                string_views(base) == prefix_output(prefix@, has_lib, has_lib64).include_dirs,
                string_views(out.include_dirs@) == string_views(base) + Seq::new(
                    i as nat,
                    |j: int| join_path(prefix@, self.extra_includes@[j]@),
                ),
            decreases self.extra_includes.len() - i,
        {
            push_string(&mut out.include_dirs, join(prefix, self.extra_includes[i].as_str()));
            i = i + 1;
            assert(string_views(out.include_dirs@) =~= string_views(base) + Seq::new(
                i as nat,
                |j: int| join_path(prefix@, self.extra_includes@[j]@),
            ));
        }
        assert(out@ =~= custom_output(
            prefix@,
            has_lib,
            has_lib64,
            string_views(self.libs@),
            string_views(self.extra_includes@),
        )) by {
            let c = custom_output(
                prefix@,
                has_lib,
                has_lib64,
                string_views(self.libs@),
                string_views(self.extra_includes@),
            );
            assert(out@.libs =~= c.libs);
            assert(out@.lib_dirs =~= c.lib_dirs);
            assert(Seq::new(
                i as nat,
                |j: int| join_path(prefix@, self.extra_includes@[j]@),
            ) =~= Seq::new(
                string_views(self.extra_includes@).len(),
                |j: int| join_path(prefix@, string_views(self.extra_includes@)[j]),
            ));
            assert(out@.include_dirs =~= c.include_dirs);
        }
        out
    }
}

// ---------------------------------------------------------------------
// Picking a builder
// ---------------------------------------------------------------------

/// The builder picked for a dependency.
pub enum SelectedBuilder {
    Cmake(CMakeBuilder),
    Meson(MesonBuilder),
    Make(MakeBuilder),
    Custom(CustomBuilder),
}

impl SelectedBuilder {
    pub open spec fn kind(&self) -> BuildSystemKind {
        match self {
            SelectedBuilder::Cmake(_) => BuildSystemKind::Cmake,
            SelectedBuilder::Meson(_) => BuildSystemKind::Meson,
            SelectedBuilder::Make(_) => BuildSystemKind::Make,
            SelectedBuilder::Custom(_) => BuildSystemKind::Custom,
        }
    }

    /// The name of the picked build system.
    pub fn name(&self) -> (r: &'static str)
        ensures
            r@ == builder_name(self.kind()),
    {
        match self {
            SelectedBuilder::Cmake(b) => b.name(),
            SelectedBuilder::Meson(b) => b.name(),
            SelectedBuilder::Make(b) => b.name(),
            SelectedBuilder::Custom(b) => b.name(),
        }
    }

    /// The recipe of the picked build system.
    pub fn build_steps(&self, src_dir: &str, prefix: &str, has_configure: bool) -> (r: Result<
        Vec<BuildStep>,
        BuildError,
    >)
        ensures
            match self {
                SelectedBuilder::Cmake(_) => r matches Ok(v) && steps_view(v@) == cmake_steps(
                    src_dir@,
                    prefix@,
                ),
                SelectedBuilder::Meson(_) => r matches Ok(v) && steps_view(v@) == meson_steps(
                    src_dir@,
                    prefix@,
                ),
                SelectedBuilder::Make(_) => r matches Ok(v) && steps_view(v@) == make_steps(
                    src_dir@,
                    prefix@,
                    has_configure,
                ),
                SelectedBuilder::Custom(c) => {
                    &&& c.commands@.len() == 0 ==> (r matches Err(
                        BuildError::Dependency { name, reason },
                    ) && name@ == src_dir@ && reason@ == custom_empty_reason())
                    &&& c.commands@.len() > 0 ==> (r matches Ok(v) && steps_view(v@)
                        == custom_steps(string_views(c.commands@), src_dir@, prefix@))
                },
            },
    {
        match self {
            SelectedBuilder::Cmake(b) => b.build_steps(src_dir, prefix, has_configure),
            SelectedBuilder::Meson(b) => b.build_steps(src_dir, prefix, has_configure),
            SelectedBuilder::Make(b) => b.build_steps(src_dir, prefix, has_configure),
            SelectedBuilder::Custom(b) => b.build_steps(src_dir, prefix, has_configure),
        }
    }

    /// What the install prefix provides for the picked build system.
    pub fn output(&self, prefix: &str, has_lib: bool, has_lib64: bool) -> (r: BuildOutput)
        ensures
            match self {
                SelectedBuilder::Custom(c) => r@ == custom_output(
                    prefix@,
                    has_lib,
                    has_lib64,
                    string_views(c.libs@),
                    string_views(c.extra_includes@),
                ),
                _ => r@ == prefix_output(prefix@, has_lib, has_lib64),
            },
    {
        match self {
            SelectedBuilder::Cmake(b) => b.output(prefix, has_lib, has_lib64),
            SelectedBuilder::Meson(b) => b.output(prefix, has_lib, has_lib64),
            SelectedBuilder::Make(b) => b.output(prefix, has_lib, has_lib64),
            SelectedBuilder::Custom(b) => b.output(prefix, has_lib, has_lib64),
        }
    }
}

pub open spec fn builder_name(k: BuildSystemKind) -> Seq<char> {
    match k {
        BuildSystemKind::Cmake => "cmake"@,
        BuildSystemKind::Meson => "meson"@,
        BuildSystemKind::Make => "make"@,
        BuildSystemKind::Custom => "custom"@,
        BuildSystemKind::Auto => seq![],
    }
}

/// The build systems detected in a directory with these entries, in
/// priority order: CMake, Meson, Make.
pub open spec fn detected(entries: Seq<String>) -> Seq<BuildSystemKind> {
    (if names_contain(entries, "CMakeLists.txt"@) {
        seq![BuildSystemKind::Cmake]
    } else {
        seq![]
    }) + (if names_contain(entries, "meson.build"@) {
        seq![BuildSystemKind::Meson]
    } else {
        seq![]
    }) + (if names_contain(entries, "Makefile"@) || names_contain(entries, "makefile"@) {
        seq![BuildSystemKind::Make]
    } else {
        seq![]
    })
}

/// All build systems whose manifest file is among `entries` (the names in
/// a dependency's source directory), in priority order.
pub fn detect_available(entries: &Vec<String>) -> (r: Vec<BuildSystemKind>)
    ensures
        r@ == detected(entries@),
{
    let mut found: Vec<BuildSystemKind> = Vec::new();
    if CMakeBuilder::detect(entries) {
        found.push(BuildSystemKind::Cmake);
    }
    if MesonBuilder::detect(entries) {
        found.push(BuildSystemKind::Meson);
    }
    if MakeBuilder::detect(entries) {
        found.push(BuildSystemKind::Make);
    }
    assert(found@ =~= detected(entries@));
    found
}

/// The builder for an already decided, non-`Auto` kind.
pub fn build_of(kind: BuildSystemKind, spec: &DependencySpec) -> (r: SelectedBuilder)
    requires
        kind != BuildSystemKind::Auto,
    ensures
        r.kind() == kind,
        r matches SelectedBuilder::Custom(c) ==> custom_from(c, *spec),
{
    match kind {
        BuildSystemKind::Cmake => SelectedBuilder::Cmake(CMakeBuilder),
        BuildSystemKind::Meson => SelectedBuilder::Meson(MesonBuilder),
        BuildSystemKind::Make => SelectedBuilder::Make(MakeBuilder),
        _ => SelectedBuilder::Custom(CustomBuilder::new(spec)),
    }
}

/// Which build system a dependency uses: the configured one, or for
/// `Auto` the first detected one (CMake, then Meson, then Make); `Auto`
/// with nothing detected fails.
pub open spec fn chosen_kind(kind: BuildSystemKind, candidates: Seq<BuildSystemKind>) -> Option<
    BuildSystemKind,
> {
    if kind == BuildSystemKind::Auto {
        if candidates.len() == 0 {
            None
        } else {
            Some(candidates[0])
        }
    } else {
        Some(kind)
    }
}

/// Pick the builder for a dependency whose sources are in `src_dir`.
/// `candidates` are the build systems detected there
/// ([`detect_available`]), used when `kind` is `Auto`.
pub fn resolve_builder(
    dep_name: &str,
    kind: BuildSystemKind,
    src_dir: &str,
    candidates: &Vec<BuildSystemKind>,
    spec: &DependencySpec,
) -> (r: Result<SelectedBuilder, BuildError>)
    requires
        forall|i: int| 0 <= i < candidates@.len() ==> candidates@[i] != BuildSystemKind::Auto,
    ensures
        match chosen_kind(kind, candidates@) {
            Some(k) => r matches Ok(b) && b.kind() == k && (b matches SelectedBuilder::Custom(c)
                ==> custom_from(c, *spec)),
            None => r matches Err(BuildError::BuildSystemDetectionFailed(d)) && d@ == src_dir@,
        },
{
    match kind {
        BuildSystemKind::Auto => {
            if candidates.len() == 0 {
                Err(BuildError::BuildSystemDetectionFailed(string_from(src_dir)))
            } else {
                Ok(build_of(candidates[0], spec))
            }
        },
        _ => Ok(build_of(kind, spec)),
    }
}

/// The build system a dependency asks for: its `build_system`, or `Auto`
/// for a version-only dependency.
pub fn requested_build_system(spec: &DependencySpec) -> (r: BuildSystemKind)
    ensures
        r == match *spec {
            DependencySpec::Detailed { build_system, .. } => build_system,
            DependencySpec::Version(_) => BuildSystemKind::Auto,
        },
{
    match spec {
        DependencySpec::Detailed { build_system, .. } => *build_system,
        DependencySpec::Version(_) => BuildSystemKind::Auto,
    }
}

/// The name a build system kind is shown with.
pub open spec fn kind_label(k: BuildSystemKind) -> Seq<char> {
    match k {
        BuildSystemKind::Auto => "Auto"@,
        BuildSystemKind::Cmake => "Cmake"@,
        BuildSystemKind::Meson => "Meson"@,
        BuildSystemKind::Make => "Make"@,
        BuildSystemKind::Custom => "Custom"@,
    }
}

fn kind_label_of(k: BuildSystemKind) -> (r: &'static str)
    ensures
        r@ == kind_label(k),
{
    match k {
        BuildSystemKind::Auto => "Auto",
        BuildSystemKind::Cmake => "Cmake",
        BuildSystemKind::Meson => "Meson",
        BuildSystemKind::Make => "Make",
        BuildSystemKind::Custom => "Custom",
    }
}

/// The names of `ks`, separated by `, `.
pub open spec fn kind_list(ks: Seq<BuildSystemKind>) -> Seq<char>
    decreases ks.len(),
{
    if ks.len() == 0 {
        seq![]
    } else if ks.len() == 1 {
        kind_label(ks[0])
    } else {
        kind_list(ks.drop_last()) + ", "@ + kind_label(ks.last())
    }
}

/// The warning shown when automatic detection finds more than one build
/// system and picks the first.
pub open spec fn detection_notice_spec(
    dep_name: Seq<char>,
    kind: BuildSystemKind,
    candidates: Seq<BuildSystemKind>,
) -> Option<Seq<char>> {
    if kind == BuildSystemKind::Auto && candidates.len() > 1 {
        Some(
            "Error: '"@ + dep_name + "': found multiple build systems ("@ + kind_list(candidates)
                + "), choosing '"@ + kind_label(candidates[0])
                + "'. To change - specify build_system in smidr.toml."@,
        )
    } else {
        None
    }
}

/// The warning to show for a dependency whose build system is detected
/// among several candidates, if any.
pub fn detection_notice(dep_name: &str, kind: BuildSystemKind, candidates: &Vec<BuildSystemKind>) -> (r:
    Option<String>)
    ensures
        match r {
            Some(s) => detection_notice_spec(dep_name@, kind, candidates@) == Some(s@),
            None => detection_notice_spec(dep_name@, kind, candidates@) is None,
        },
{
    if kind != BuildSystemKind::Auto || candidates.len() <= 1 {
        return None;
    }
    let mut list = String::new();
    push_str(&mut list, kind_label_of(candidates[0]));
    let mut i: usize = 1;
    assert(kind_list(candidates@.take(1)) == kind_label(candidates@[0]));
    while i < candidates.len()
        invariant
            1 <= i <= candidates@.len(),
            list@ == kind_list(candidates@.take(i as int)),
        decreases candidates.len() - i,
    {
        push_str(&mut list, ", ");
        push_str(&mut list, kind_label_of(candidates[i]));
        assert(candidates@.take(i + 1).drop_last() =~= candidates@.take(i as int));
        i = i + 1;
    }
    assert(candidates@.take(i as int) =~= candidates@);
    let mut s = string_from("Error: '");
    push_str(&mut s, dep_name);
    push_str(&mut s, "': found multiple build systems (");
    push_str(&mut s, list.as_str());
    push_str(&mut s, "), choosing '");
    push_str(&mut s, kind_label_of(candidates[0]));
    push_str(&mut s, "'. To change - specify build_system in smidr.toml.");
    Some(s)
}

/// Every command of every recipe runs in the dependency's source
/// directory, never in the install prefix; the prefix only reaches the
/// commands through their arguments. The Make recipe runs `./configure`
/// first exactly when there is a `configure` script, and ends with
/// `make PREFIX=<prefix> install`.
pub proof fn law_recipes_run_in_source_dir(
    src_dir: Seq<char>,
    prefix: Seq<char>,
    has_configure: bool,
    commands: Seq<Seq<char>>,
)
    ensures
        forall|i: int|
            0 <= i < cmake_steps(src_dir, prefix).len() ==> #[trigger] cmake_steps(
                src_dir,
                prefix,
            )[i].cwd == src_dir,
        forall|i: int|
            0 <= i < meson_steps(src_dir, prefix).len() ==> #[trigger] meson_steps(
                src_dir,
                prefix,
            )[i].cwd == src_dir,
        forall|i: int|
            0 <= i < make_steps(src_dir, prefix, has_configure).len() ==> #[trigger] make_steps(
                src_dir,
                prefix,
                has_configure,
            )[i].cwd == src_dir,
        forall|i: int|
            0 <= i < custom_steps(commands, src_dir, prefix).len() ==> #[trigger] custom_steps(
                commands,
                src_dir,
                prefix,
            )[i].cwd == src_dir,
        has_configure <==> make_steps(src_dir, prefix, has_configure)[0].program == "./configure"@,
        make_steps(src_dir, prefix, has_configure).last().args == seq!["PREFIX="@ + prefix, "install"@],
        make_steps(src_dir, prefix, has_configure).len() == if has_configure { 3int } else { 2int },
{
    reveal_strlit("./configure");
    reveal_strlit("make");
    let m = make_steps(src_dir, prefix, has_configure);
    assert forall|i: int| 0 <= i < m.len() implies #[trigger] m[i].cwd == src_dir by {}
    if !has_configure {
        assert(m[0].program == "make"@);
    }
}

/// Automatic detection never picks `custom`, and prefers CMake, then
/// Meson, then Make: with a `CMakeLists.txt` CMake is used whatever else
/// is there, and a `Makefile` is used only when neither CMake nor Meson
/// is detected.
pub proof fn law_auto_priority(entries: Seq<String>)
    ensures
        forall|i: int| 0 <= i < detected(entries).len() ==> detected(entries)[i] != BuildSystemKind::Custom
            && detected(entries)[i] != BuildSystemKind::Auto,
        names_contain(entries, "CMakeLists.txt"@) ==> chosen_kind(
            BuildSystemKind::Auto,
            detected(entries),
        ) == Some(BuildSystemKind::Cmake),
        !names_contain(entries, "CMakeLists.txt"@) && names_contain(entries, "meson.build"@)
            ==> chosen_kind(BuildSystemKind::Auto, detected(entries)) == Some(BuildSystemKind::Meson),
        chosen_kind(BuildSystemKind::Auto, detected(entries)) == Some(BuildSystemKind::Make)
            ==> !names_contain(entries, "CMakeLists.txt"@) && !names_contain(
            entries,
            "meson.build"@,
        ),
        chosen_kind(BuildSystemKind::Auto, detected(entries)) is None <==> detected(entries).len()
            == 0,
{
}
} // verus!

//! The typed contents of `Smidr.toml` and the resolution of build
//! profiles.
//!
//! Reading and writing the file (TOML) is done outside this library; this
//! module owns the shape of the manifest and the rules computed from it.

use vstd::prelude::*;
use crate::dep_table::DependencyTable;

verus! {

/// The full, typed contents of a `Smidr.toml` file.
pub struct ManifestConfig {
    pub project: Option<ProjectSection>,
    pub build: Option<BuildSection>,
    pub dependencies: DependencyTable,
    /// Optional `[workspace]` section: the same `Smidr.toml` may also act
    /// as the root of a multi-project workspace listing member paths.
    pub workspace: Option<WorkspacesConfig>,
    pub profile: ProfilesSection,
    /// The `[[bin]]` entries.
    pub extra_bins: Vec<BinTarget>,
}

/// The `[project]` section: identifying metadata for the project.
pub struct ProjectSection {
    pub name: String,
    pub version: String,
    pub project_type: ProjectType,
    pub language: Language,
    pub c_standard: CStandard,
    pub cpp_standard: Option<CppStandard>,
    pub authors: Vec<String>,
    pub authors_email: Vec<String>,
    pub description: Option<String>,
    pub license: Option<String>,
    pub output_name: Option<String>,
}

/// The type of the project: a binary, a static library or a shared
/// library.
#[derive(Debug, Clone, Copy, PartialEq, Eq, Structural)]
pub enum ProjectType {
    Binary,
    StaticLibrary,
    SharedLibrary,
}

impl Default for ProjectType {
    fn default() -> (r: Self)
        ensures
            r == ProjectType::Binary,
    {
        ProjectType::Binary
    }
}

#[derive(Debug, Clone, Copy, PartialEq, Eq, Structural)]
pub enum Language {
    C,
    Cpp,
}

impl Default for Language {
    fn default() -> (r: Self)
        ensures
            r == Language::C,
    {
        Language::C
    }
}

#[derive(Debug, Clone, Copy, PartialEq, Eq, Structural)]
pub enum CStandard {
    C89,
    C90,
    C99,
    C11,
    C17,
    C23,
    Gnu99,
    Gnu11,
    Gnu17,
}

impl Default for CStandard {
    fn default() -> (r: Self)
        ensures
            r == CStandard::C17,
    {
        CStandard::C17
    }
}

pub open spec fn c_standard_name(s: CStandard) -> Seq<char> {
    match s {
        CStandard::C89 => "c89"@,
        CStandard::C90 => "c90"@,
        CStandard::C99 => "c99"@,
        CStandard::C11 => "c11"@,
        CStandard::C17 => "c17"@,
        CStandard::C23 => "c23"@,
        CStandard::Gnu99 => "gnu99"@,
        CStandard::Gnu11 => "gnu11"@,
        CStandard::Gnu17 => "gnu17"@,
    }
}

impl CStandard {
    /// The name of the standard as passed to `-std=` (its display form).
    pub fn as_str(&self) -> (r: &'static str)
        ensures
            r@ == c_standard_name(*self),
    {
        match self {
            CStandard::C89 => "c89",
            CStandard::C90 => "c90",
            CStandard::C99 => "c99",
            CStandard::C11 => "c11",
            CStandard::C17 => "c17",
            CStandard::C23 => "c23",
            CStandard::Gnu99 => "gnu99",
            CStandard::Gnu11 => "gnu11",
            CStandard::Gnu17 => "gnu17",
        }
    }
}

#[derive(Debug, Clone, Copy, PartialEq, Eq, Structural)]
pub enum CppStandard {
    Cpp98,
    Cpp03,
    Cpp11,
    Cpp14,
    Cpp17,
    Cpp20,
    Cpp23,
    Cpp26,
}

impl Default for CppStandard {
    fn default() -> (r: Self)
        ensures
            r == CppStandard::Cpp20,
    {
        CppStandard::Cpp20
    }
}

pub open spec fn cpp_standard_name(s: CppStandard) -> Seq<char> {
    match s {
        CppStandard::Cpp98 => "c++98"@,
        CppStandard::Cpp03 => "c++03"@,
        CppStandard::Cpp11 => "c++11"@,
        CppStandard::Cpp14 => "c++14"@,
        CppStandard::Cpp17 => "c++17"@,
        CppStandard::Cpp20 => "c++20"@,
        CppStandard::Cpp23 => "c++23"@,
        CppStandard::Cpp26 => "c++26"@,
    }
}

impl CppStandard {
    /// The name of the standard as passed to `-std=` (its display form).
    pub fn as_str(&self) -> (r: &'static str)
        ensures
            r@ == cpp_standard_name(*self),
    {
        match self {
            CppStandard::Cpp98 => "c++98",
            CppStandard::Cpp03 => "c++03",
            CppStandard::Cpp11 => "c++11",
            CppStandard::Cpp14 => "c++14",
            CppStandard::Cpp17 => "c++17",
            CppStandard::Cpp20 => "c++20",
            CppStandard::Cpp23 => "c++23",
            CppStandard::Cpp26 => "c++26",
        }
    }
}

/// `[workspace]` section - paths to member projects, each with its own
/// `Smidr.toml`.
pub struct WorkspacesConfig {
    pub members: Vec<String>,
}

/// The `[build]` section: compiler and flag settings.
pub struct BuildSection {
    pub compiler: CompilerKind,
    pub cflags: Vec<String>,
    pub libs: Vec<String>,
    pub linker_flags: Vec<String>,
}

/// One entry under `[dependencies]`: where a dependency's source comes
/// from and how to build it.
#[derive(Clone)]
pub enum DependencySpec {
    /// A version string for a system library, e.g. `zlib = "1.3"`.
    Version(String),
    /// A `git`, `path`, or build-system-configured dependency.
    Detailed {
        git: Option<String>,
        path: Option<String>,
        tag: Option<String>,
        branch: Option<String>,
        rev: Option<String>,
        build_system: BuildSystemKind,
        build_commands: Vec<String>,
        extra_includes: Vec<String>,
        libs: Vec<String>,
    },
}

/// The `[profile]` section. All fields optional.
#[derive(Debug, Clone, Copy, PartialEq, Eq, Structural)]
pub struct ProfilesSection {
    pub debug: Option<ProfileSection>,
    pub release: Option<ProfileSection>,
}

impl Default for ProfilesSection {
    fn default() -> (r: Self)
        ensures
            r.debug is None,
            r.release is None,
    {
        ProfilesSection { debug: None, release: None }
    }
}

/// The `[profile.debug]` and `[profile.release]` sections. All fields
/// optional.
#[derive(Debug, Clone, Copy, PartialEq, Eq, Structural)]
pub struct ProfileSection {
    pub opt_level: Option<OptLevel>,
    pub warnings: Option<WarningLevel>,
    pub debug_symbols: Option<bool>,
    pub lto: Option<bool>,
    pub strip: Option<bool>,
}

/// The effective settings of a build profile, every field filled in from
/// the user's section or from the profile's built-in defaults.
#[derive(Debug, Clone, Copy, PartialEq, Eq, Structural)]
pub struct ResolvedProfile {
    pub opt_level: OptLevel,
    pub warnings: WarningLevel,
    pub debug_symbols: bool,
    pub lto: bool,
    pub strip: bool,
}

/// Optimization level for the build.
#[derive(Debug, Clone, Copy, PartialEq, Eq, Structural)]
pub enum OptLevel {
    /// `-O0` (written `none` in `Smidr.toml`)
    Off,
    /// `-O2`
    Speed,
    /// `-Os`
    Size,
    /// `-O3`
    Max,
}

impl Default for OptLevel {
    fn default() -> (r: Self)
        ensures
            r == OptLevel::Off,
    {
        OptLevel::Off
    }
}

/// Compiler warning level.
#[derive(Debug, Clone, Copy, PartialEq, Eq, Structural)]
pub enum WarningLevel {
    /// No warning flags (written `none` in `Smidr.toml`)
    Off,
    Standard,
    Strict,
}

impl Default for WarningLevel {
    fn default() -> (r: Self)
        ensures
            r == WarningLevel::Standard,
    {
        WarningLevel::Standard
    }
}

/// A `[[bin]]` entry.
pub struct BinTarget {
    pub name: String,
    pub path: String,
}

/// Which build system to use for a dependency; `Auto` probes its source
/// directory.
#[derive(Debug, Clone, Copy, PartialEq, Eq, Structural)]
pub enum BuildSystemKind {
    Auto,
    Cmake,
    Meson,
    Make,
    Custom,
}

impl Default for BuildSystemKind {
    fn default() -> (r: Self)
        ensures
            r == BuildSystemKind::Auto,
    {
        BuildSystemKind::Auto
    }
}

/// Which C compiler to use; `Auto` probes for a working one.
#[derive(Debug, Clone, Copy, PartialEq, Eq, Structural)]
pub enum CompilerKind {
    Auto,
    Gcc,
    Tcc,
    Clang,
}

impl Default for CompilerKind {
    fn default() -> (r: Self)
        ensures
            r == CompilerKind::Auto,
    {
        CompilerKind::Auto
    }
}

// ---------------------------------------------------------------------
// Profiles
// ---------------------------------------------------------------------

/// The user's value when given, else the default.
pub open spec fn or_default<T>(v: Option<T>, d: T) -> T {
    match v {
        Some(x) => x,
        None => d,
    }
}

/// Fill every unset field of `user` (or all of them, when there is no
/// section) from `defaults`.
pub open spec fn resolve_profile(user: Option<ProfileSection>, defaults: ResolvedProfile) -> ResolvedProfile {
    match user {
        Some(p) => ResolvedProfile {
            opt_level: or_default(p.opt_level, defaults.opt_level),
            warnings: or_default(p.warnings, defaults.warnings),
            debug_symbols: or_default(p.debug_symbols, defaults.debug_symbols),
            lto: or_default(p.lto, defaults.lto),
            strip: or_default(p.strip, defaults.strip),
        },
        None => defaults,
    }
}

/// Built-in release settings: `-O3`, strict warnings, no debug symbols,
/// LTO on, no stripping.
pub open spec fn release_defaults() -> ResolvedProfile {
    ResolvedProfile {
        opt_level: OptLevel::Max,
        warnings: WarningLevel::Strict,
        debug_symbols: false,
        lto: true,
        strip: false,
    }
}

/// Built-in debug settings: `-O0`, standard warnings, debug symbols, no
/// LTO, no stripping.
pub open spec fn debug_defaults() -> ResolvedProfile {
    ResolvedProfile {
        opt_level: OptLevel::Off,
        warnings: WarningLevel::Standard,
        debug_symbols: true,
        lto: false,
        strip: false,
    }
}

fn pick<T: Copy>(v: Option<T>, d: T) -> (r: T)
    ensures
        r == or_default(v, d),
{
    match v {
        Some(x) => x,
        None => d,
    }
}

fn resolve_with(user: Option<ProfileSection>, defaults: ResolvedProfile) -> (r: ResolvedProfile)
    ensures
        r == resolve_profile(user, defaults),
{
    match user {
        Some(p) => ResolvedProfile {
            opt_level: pick(p.opt_level, defaults.opt_level),
            warnings: pick(p.warnings, defaults.warnings),
            debug_symbols: pick(p.debug_symbols, defaults.debug_symbols),
            lto: pick(p.lto, defaults.lto),
            strip: pick(p.strip, defaults.strip),
        },
        None => defaults,
    }
}

impl ManifestConfig {
    /// The effective release profile, using defaults where not specified.
    pub fn get_release_profile(&self) -> (r: ResolvedProfile)
        ensures
            r == resolve_profile(self.profile.release, release_defaults()),
    {
        let defaults = ResolvedProfile {
            opt_level: OptLevel::Max,
            warnings: WarningLevel::Strict,
            debug_symbols: false,
            lto: true,
            strip: false,
        };
        resolve_with(self.profile.release, defaults)
    }

    /// The effective debug profile, using defaults where not specified.
    pub fn get_debug_profile(&self) -> (r: ResolvedProfile)
        ensures
            r == resolve_profile(self.profile.debug, debug_defaults()),
    {
        let defaults = ResolvedProfile {
            opt_level: OptLevel::Off,
            warnings: WarningLevel::Standard,
            debug_symbols: true,
            lto: false,
            strip: false,
        };
        resolve_with(self.profile.debug, defaults)
    }

    /// The profile a build uses: release or debug.
    pub fn profile_for(&self, release: bool) -> (r: ResolvedProfile)
        ensures
            r == if release {
                resolve_profile(self.profile.release, release_defaults())
            } else {
                resolve_profile(self.profile.debug, debug_defaults())
            },
    {
        if release {
            self.get_release_profile()
        } else {
            self.get_debug_profile()
        }
    }
}

/// A profile section that sets nothing changes nothing, and one that sets
/// every field ignores the defaults entirely.
pub proof fn law_profile_defaults(defaults: ResolvedProfile, p: ProfileSection)
    ensures
        resolve_profile(None, defaults) == defaults,
        resolve_profile(
            Some(
                ProfileSection {
                    opt_level: None,
                    warnings: None,
                    debug_symbols: None,
                    lto: None,
                    strip: None,
                },
            ),
            defaults,
        ) == defaults,
        p.opt_level is Some && p.warnings is Some && p.debug_symbols is Some && p.lto is Some
            && p.strip is Some ==> forall|d2: ResolvedProfile|
            resolve_profile(Some(p), defaults) == #[trigger] resolve_profile(Some(p), d2),
{
}

/// Each field of a resolved profile is the user's value for that same
/// field when it is set, and the default for that field otherwise; no
/// other field of the section plays any part: two sections that agree on
/// a field resolve it the same way, whatever else they set.
pub proof fn law_profile_fields_independent(p: ProfileSection, q: ProfileSection, d: ResolvedProfile)
    ensures
        resolve_profile(Some(p), d).opt_level == (match p.opt_level {
            Some(x) => x,
            None => d.opt_level,
        }),
        resolve_profile(Some(p), d).warnings == (match p.warnings {
            Some(x) => x,
            None => d.warnings,
        }),
        resolve_profile(Some(p), d).debug_symbols == (match p.debug_symbols {
            Some(x) => x,
            None => d.debug_symbols,
        }),
        resolve_profile(Some(p), d).lto == (match p.lto {
            Some(x) => x,
            None => d.lto,
        }),
        resolve_profile(Some(p), d).strip == (match p.strip {
            Some(x) => x,
            None => d.strip,
        }),
        p.opt_level == q.opt_level ==> resolve_profile(Some(p), d).opt_level == resolve_profile(
            Some(q),
            d,
        ).opt_level,
        p.warnings == q.warnings ==> resolve_profile(Some(p), d).warnings == resolve_profile(
            Some(q),
            d,
        ).warnings,
        p.debug_symbols == q.debug_symbols ==> resolve_profile(Some(p), d).debug_symbols
            == resolve_profile(Some(q), d).debug_symbols,
        p.lto == q.lto ==> resolve_profile(Some(p), d).lto == resolve_profile(Some(q), d).lto,
        p.strip == q.strip ==> resolve_profile(Some(p), d).strip == resolve_profile(Some(q), d).strip,
{
}

impl ProjectSection {
    /// The explicit `output_name` if configured, else the project `name`.
    pub fn output_name(&self) -> (r: &str)
        ensures
            r@ == output_name_of(self),
    {
        match &self.output_name {
            Some(o) => o.as_str(),
            None => self.name.as_str(),
        }
    }
}

pub open spec fn output_name_of(p: &ProjectSection) -> Seq<char> {
    match p.output_name {
        Some(o) => o@,
        None => p.name@,
    }
}

impl ProfilesSection {
    /// Whether no profile settings are given (both `debug` and `release`
    /// are absent); an empty section is left out when the manifest is
    /// written.
    pub fn is_empty(&self) -> (r: bool)
        ensures
            r == (self.debug is None && self.release is None),
    {
        self.debug.is_none() && self.release.is_none()
    }
}

} // verus!

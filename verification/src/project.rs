//! The in-memory model of a `smidr` project: its root, its manifest, the
//! standard directories under the root, and the build results of its
//! resolved dependencies.

use vstd::prelude::*;
use crate::config::{
    BuildSection, BuildSystemKind, CStandard, CompilerKind, DependencySpec, Language, ManifestConfig,
    ProfilesSection, ProjectSection, ProjectType,
};
use crate::dep_table::DependencyTable;
use crate::error::BuildError;
use crate::paths::{extension_in, has_extension_in, join, join_path};
use crate::text::{clone_opt_string, str_concat, str_eq, string_from, to_chars};
use crate::resolver::{
    dependency_error, dependency_path, info_view, probe_path, system_lib_output, system_output,
    SystemLibInfo,
};
use crate::toolchain::{BuildOutput, BuildOutputView};

verus! {

broadcast use vstd::string::group_string_axioms;

/// A loaded (or freshly initialized) project.
pub struct Project {
    /// The project's root directory (where `Smidr.toml` lives).
    pub root: String,
    /// The parsed `Smidr.toml`.
    pub config: ManifestConfig,
    /// `root/src`: where sources are found.
    pub src_dir: String,
    /// `root/target`: where objects and binaries are written.
    pub build_dir: String,
    /// `root/target/deps`: where dependency install prefixes live.
    pub install_dir: String,
    /// Build results of the resolved dependencies, in resolution order.
    pub resolved_deps: Vec<(String, BuildOutput)>,
}

pub open spec fn resolved_view(v: Seq<(String, BuildOutput)>) -> Seq<(Seq<char>, BuildOutputView)> {
    v.map_values(|e: (String, BuildOutput)| (e.0@, e.1@))
}

/// The source extensions compiled.
pub open spec fn source_exts() -> Seq<Seq<char>> {
    seq!["c"@, "cpp"@, "cc"@, "cxx"@]
}

/// The header extensions.
pub open spec fn header_exts() -> Seq<Seq<char>> {
    seq!["h"@, "hpp"@, "hh"@]
}

/// Everything `clang-format` is run on.
pub open spec fn formattable_exts() -> Seq<Seq<char>> {
    seq!["c"@, "h"@, "cpp"@, "hpp"@, "cc"@, "hxx"@, "cxx"@, "hh"@]
}

pub open spec fn str_views(v: Seq<&str>) -> Seq<Seq<char>> {
    v.map_values(|e: &str| e@)
}

pub open spec fn string_views(v: Seq<String>) -> Seq<Seq<char>> {
    v.map_values(|s: String| s@)
}

/// The files among `found` whose extension is in `exts`, in order.
pub open spec fn filter_ext(found: Seq<Seq<char>>, exts: Seq<Seq<char>>) -> Seq<Seq<char>>
    decreases found.len(),
{
    if found.len() == 0 {
        seq![]
    } else {
        let rest = filter_ext(found.drop_last(), exts);
        if has_extension_in(found.last(), exts) {
            rest.push(found.last())
        } else {
            rest
        }
    }
}

/// The paths in `found` whose extension is one of `exts`.
pub fn collect_files(found: &Vec<String>, exts: &Vec<&str>) -> (r: Vec<String>)
    ensures
        string_views(r@) == filter_ext(string_views(found@), str_views(exts@)),
{
    let mut out: Vec<String> = Vec::new();
    let mut i: usize = 0;
    while i < found.len()
        invariant
            i <= found@.len(),
            string_views(out@) == filter_ext(string_views(found@.take(i as int)), str_views(exts@)),
        decreases found.len() - i,
    {
        assert(string_views(found@.take(i + 1)).drop_last() =~= string_views(found@.take(i as int)));
        if extension_in(found[i].as_str(), exts) {
            let ghost before = string_views(out@);
            out.push(found[i].clone());
            assert(string_views(out@) =~= before.push(found@[i as int]@));
        }
        i = i + 1;
    }
    assert(found@.take(i as int) =~= found@);
    out
}

fn exts_of(which: u8) -> (r: Vec<&'static str>)
    ensures
        which == 0 ==> str_views(r@) == source_exts(),
        which == 1 ==> str_views(r@) == header_exts(),
        which >= 2 ==> str_views(r@) == formattable_exts(),
{
    let v: Vec<&'static str> = if which == 0 {
        vec!["c", "cpp", "cc", "cxx"]
    } else if which == 1 {
        vec!["h", "hpp", "hh"]
    } else {
        vec!["c", "h", "cpp", "hpp", "cc", "hxx", "cxx", "hh"]
    };
    assert(which == 0 ==> str_views(v@) =~= source_exts());
    assert(which == 1 ==> str_views(v@) =~= header_exts());
    assert(which >= 2 ==> str_views(v@) =~= formattable_exts());
    v
}

pub open spec fn project_type_of(p: &Project) -> Option<ProjectType> {
    match p.config.project {
        Some(s) => Some(s.project_type),
        None => None,
    }
}

impl Project {
    /// A project rooted at `project_dir` whose `Smidr.toml` parsed into
    /// `config`, with the standard `src/`, `target/` and `target/deps/`
    /// paths under it and no resolved dependency yet.
    pub fn load(project_dir: &str, config: ManifestConfig) -> (r: Project)
        ensures
            r.root@ == project_dir@,
            r.config == config,
            r.src_dir@ == join_path(project_dir@, "src"@),
            r.build_dir@ == join_path(project_dir@, "target"@),
            r.install_dir@ == join_path(project_dir@, "target/deps"@),
            r.resolved_deps@.len() == 0,
    {
        Project {
            root: string_from(project_dir),
            src_dir: join(project_dir, "src"),
            build_dir: join(project_dir, "target"),
            install_dir: join(project_dir, "target/deps"),
            config,
            resolved_deps: Vec::new(),
        }
    }

    /// `root/include`.
    pub fn include_dir(&self) -> (r: String)
        ensures
            r@ == join_path(self.root@, "include"@),
    {
        join(self.root.as_str(), "include")
    }

    /// The source files among `found` (the files found under `src/`); none
    /// at all is an error.
    pub fn source_files(&self, found: &Vec<String>) -> (r: Result<Vec<String>, BuildError>)
        ensures
            ({
                let files = filter_ext(string_views(found@), source_exts());
                if files.len() == 0 {
                    r matches Err(BuildError::NoSourceFiles)
                } else {
                    r matches Ok(v) && string_views(v@) == files
                }
            }),
    {
        let exts = exts_of(0);
        let sources = collect_files(found, &exts);
        if sources.len() == 0 {
            return Err(BuildError::NoSourceFiles);
        }
        Ok(sources)
    }

    /// The header files among `found` (the files found under `include/`).
    /// A library, static or shared, without any is an error: nothing else
    /// could use it.
    pub fn header_files(&self, found: &Vec<String>) -> (r: Result<Vec<String>, BuildError>)
        ensures
            ({
                let files = filter_ext(string_views(found@), header_exts());
                if files.len() == 0 && (project_type_of(self) == Some(ProjectType::StaticLibrary)
                    || project_type_of(self) == Some(ProjectType::SharedLibrary)) {
                    r matches Err(BuildError::NoHeaderFiles)
                } else {
                    r matches Ok(v) && string_views(v@) == files
                }
            }),
    {
        let exts = exts_of(1);
        let headers = collect_files(found, &exts);
        if let Some(project_section) = &self.config.project {
            if headers.len() == 0 && project_section.project_type != ProjectType::Binary {
                return Err(BuildError::NoHeaderFiles);
            }
        }
        Ok(headers)
    }

    /// The files among `found` (those under `src/` and `include/`) that
    /// `clang-format` formats.
    pub fn formattable_files(&self, found: &Vec<String>) -> (r: Vec<String>)
        ensures
            string_views(r@) == filter_ext(string_views(found@), formattable_exts()),
    {
        let exts = exts_of(2);
        collect_files(found, &exts)
    }

    /// The install prefix of a dependency: where its build system installs
    /// its `include/` and `lib/` output.
    pub fn dep_prefix(&self, dep_name: &str) -> (r: String)
        ensures
            r@ == join_path(self.install_dir@, dep_name@),
    {
        join(self.install_dir.as_str(), dep_name)
    }

    /// Record the `[dependencies]` entry `name = "*"`, replacing any earlier
    /// entry of that name (once the caller found the system library).
    pub fn add_dependency(&mut self, name: &str)
        ensures
            final(self).config.dependencies@.dom()
                == old(self).config.dependencies@.dom().insert(name@),
            final(self).config.dependencies@[name@] matches DependencySpec::Version(v) && v@
                == "*"@,
            forall|k: Seq<char>|
                k != name@ && #[trigger] old(self).config.dependencies@.contains_key(k)
                    ==> final(self).config.dependencies@[k] == old(self).config.dependencies@[k],
            same_but_dependencies(final(self), old(self)),
    {
        let spec = DependencySpec::Version(string_from("*"));
        let _ = self.config.dependencies.insert(string_from(name), spec);
    }

    /// Drop the `[dependencies]` entry of `name`, if any.
    pub fn remove_dependency(&mut self, name: &str)
        ensures
            final(self).config.dependencies@ == old(self).config.dependencies@.remove(name@),
            same_but_dependencies(final(self), old(self)),
    {
        let _ = self.config.dependencies.remove(name);
    }
}

/// Everything but the `[dependencies]` table is the same.
pub open spec fn same_but_dependencies(a: &Project, b: &Project) -> bool {
    &&& a.root == b.root
    &&& a.src_dir == b.src_dir
    &&& a.build_dir == b.build_dir
    &&& a.install_dir == b.install_dir
    &&& a.resolved_deps == b.resolved_deps
    &&& a.config.project == b.config.project
    &&& a.config.build == b.config.build
    &&& a.config.workspace == b.config.workspace
    &&& a.config.profile == b.config.profile
    &&& a.config.extra_bins == b.config.extra_bins
}

// ---------------------------------------------------------------------
// Resolving dependencies
// ---------------------------------------------------------------------

/// Where dependency resolution stands.
#[derive(Debug, Clone, Copy, PartialEq, Eq, Structural)]
pub enum DepStage {
    /// About to look at the dependency at `index`.
    Next,
    /// Waiting for whether the dependency's path exists.
    AwaitPath,
    /// Waiting for the system library lookup.
    AwaitSystemLib,
    /// Waiting for the git checkout.
    AwaitFetch,
    /// Waiting for the dependency's build.
    AwaitBuild,
}

/// Position in the dependency table (in name order) and what is awaited.
pub struct DepCursor {
    pub index: usize,
    pub stage: DepStage,
}

impl DepCursor {
    /// Resolution not started yet.
    pub fn new() -> (r: DepCursor)
        ensures
            r.index == 0,
            r.stage == DepStage::Next,
    {
        DepCursor { index: 0, stage: DepStage::Next }
    }
}

/// What the caller has to do next.
pub enum DepAction {
    /// Tell whether this path exists (answer with `DepEvent::PathChecked`).
    CheckPath(String),
    /// Look up the system library `name` (answer with `DepEvent::SystemLib`).
    FindSystemLib(String),
    /// Fetch the git dependency into `dest` (answer with
    /// `DepEvent::Fetched` and the directory of the checkout).
    FetchGit {
        name: String,
        url: String,
        tag: Option<String>,
        branch: Option<String>,
        rev: Option<String>,
        dest: String,
    },
    /// Build the dependency found in `dep_root` (answer with
    /// `DepEvent::Built`).
    Build { name: String, dep_root: String },
    /// Every dependency is resolved.
    Done,
}

/// What the caller reports back.
pub enum DepEvent {
    Start,
    PathChecked(bool),
    SystemLib(Result<SystemLibInfo, BuildError>),
    Fetched(Result<String, BuildError>),
    Built(Result<BuildOutput, BuildError>),
}

/// The event answers the action the stage is waiting on.
pub open spec fn event_fits(stage: DepStage, e: DepEvent) -> bool {
    match stage {
        DepStage::Next => e is Start,
        DepStage::AwaitPath => e is PathChecked,
        DepStage::AwaitSystemLib => e is SystemLib,
        DepStage::AwaitFetch => e is Fetched,
        DepStage::AwaitBuild => e is Built,
    }
}

impl DepCursor {
    /// Whether `e` answers what this cursor waits on.
    pub fn accepts(&self, e: &DepEvent) -> (r: bool)
        ensures
            r == event_fits(self.stage, *e),
    {
        match (self.stage, e) {
            (DepStage::Next, DepEvent::Start) => true,
            (DepStage::AwaitPath, DepEvent::PathChecked(_)) => true,
            (DepStage::AwaitSystemLib, DepEvent::SystemLib(_)) => true,
            (DepStage::AwaitFetch, DepEvent::Fetched(_)) => true,
            (DepStage::AwaitBuild, DepEvent::Built(_)) => true,
            _ => false,
        }
    }
}

/// The dependencies, in name order.
pub open spec fn dep_entries(p: &Project) -> Seq<(Seq<char>, DependencySpec)> {
    p.config.dependencies.pairs()
}

pub open spec fn is_git_only(spec: DependencySpec) -> bool {
    spec matches DependencySpec::Detailed { git: Some(_), path: None, .. }
}

/// The cursor is consistent with the table: a stage other than `Next`
/// waits on the dependency at `index`, of a kind that has that stage.
pub open spec fn cursor_ok(p: &Project, c: DepCursor) -> bool {
    let es = dep_entries(p);
    &&& c.index <= es.len()
    &&& c.stage != DepStage::Next ==> c.index < es.len()
    &&& c.stage == DepStage::AwaitPath ==> probe_path(es[c.index as int].1, p.root@) is Some
    &&& c.stage == DepStage::AwaitSystemLib ==> es[c.index as int].1 is Version
    &&& c.stage == DepStage::AwaitFetch ==> is_git_only(es[c.index as int].1)
    &&& c.stage == DepStage::AwaitBuild ==> (probe_path(es[c.index as int].1, p.root@) is Some
        || is_git_only(es[c.index as int].1))
}

/// The resolved dependencies are the first `c.index` entries of the
/// table, by name and in order.
pub open spec fn resolved_in_order(p: &Project, c: DepCursor) -> bool {
    let es = dep_entries(p);
    &&& c.index <= es.len()
    &&& p.resolved_deps@.len() == c.index
    &&& forall|i: int| 0 <= i < c.index ==> #[trigger] p.resolved_deps@[i].0@ == es[i].0
}

/// Resolution registers every dependency once, in name order: it starts
/// in order (nothing resolved, cursor at the first entry), every
/// successful step of [`Project::resolve_dependencies`] keeps it in order,
/// and once the cursor is past the last entry the resolved dependencies
/// are exactly the table's entries, by name and in order.
pub proof fn law_resolution_in_order(p: &Project, c: DepCursor)
    ensures
        p.resolved_deps@.len() == 0 && c.index == 0 ==> resolved_in_order(p, c),
        resolved_in_order(p, c) && c.index == dep_entries(p).len() ==> p.resolved_deps@.map_values(
            |e: (String, BuildOutput)| e.0@,
        ) == dep_entries(p).map_values(|e: (Seq<char>, DependencySpec)| e.0),
{
    if resolved_in_order(p, c) && c.index == dep_entries(p).len() {
        assert(p.resolved_deps@.map_values(|e: (String, BuildOutput)| e.0@) =~= dep_entries(
            p,
        ).map_values(|e: (Seq<char>, DependencySpec)| e.0));
    }
}

/// Where a git dependency is checked out: `target/deps-src/<name>`.
pub open spec fn git_dest(p: &Project, name: Seq<char>) -> Seq<char> {
    join_path(join_path(p.build_dir@, "deps-src"@), name)
}

/// Starting on dependency `i`: done past the last one; otherwise a
/// `path` dependency has its path checked, a version dependency is looked
/// up as a system library, a `git` one is fetched, and a spec giving both
/// or neither of `git` and `path` fails.
pub open spec fn begins(p: &Project, i: int, c: DepCursor, r: Result<DepAction, BuildError>) -> bool {
    let es = dep_entries(p);
    if i >= es.len() {
        r matches Ok(DepAction::Done) && c.index == i && c.stage == DepStage::Next
    } else {
        let name = es[i].0;
        let spec = es[i].1;
        match probe_path(spec, p.root@) {
            Some(pp) => c.index == i && c.stage == DepStage::AwaitPath && (r matches Ok(
                DepAction::CheckPath(x),
            ) && x@ == pp),
            None => match spec {
                DependencySpec::Version(_) => c.index == i && c.stage == DepStage::AwaitSystemLib
                    && (r matches Ok(DepAction::FindSystemLib(n)) && n@ == name),
                DependencySpec::Detailed { git, path, tag, branch, rev, .. } => match (git, path) {
                    (Some(u), None) => c.index == i && c.stage == DepStage::AwaitFetch && (r matches Ok(
                        DepAction::FetchGit { name: n, url, tag: t, branch: b, rev: v, dest },
                    ) && n@ == name && url@ == u@ && t == tag && b == branch && v == rev && dest@
                        == git_dest(p, name)),
                    (Some(_), Some(_)) => r is Err && dependency_error(
                        r->Err_0,
                        name,
                        "both git and path specified - ambiguous"@,
                    ),
                    _ => r is Err && dependency_error(
                        r->Err_0,
                        name,
                        "no source specified: specify git or path in Smidr.toml"@,
                    ),
                },
            },
        }
    }
}

/// Nothing but the resolved dependencies changes.
pub open spec fn same_project(a: &Project, b: &Project) -> bool {
    &&& a.root == b.root
    &&& a.config == b.config
    &&& a.src_dir == b.src_dir
    &&& a.build_dir == b.build_dir
    &&& a.install_dir == b.install_dir
}

impl Project {
    fn begin(&self, cursor: &mut DepCursor) -> (r: Result<DepAction, BuildError>)
        requires
            old(cursor).index <= dep_entries(self).len(),
        ensures
            begins(self, old(cursor).index as int, *final(cursor), r),
            r is Ok ==> cursor_ok(self, *final(cursor)),
    {
        let entries = self.config.dependencies.entries();
        let i = cursor.index;
        if i >= entries.len() {
            cursor.stage = DepStage::Next;
            return Ok(DepAction::Done);
        }
        let name = &entries[i].0;
        let spec = &entries[i].1;
        assert(dep_entries(self)[i as int] == (name@, *spec));
        match dependency_path(spec, self.root.as_str()) {
            Some(pp) => {
                cursor.stage = DepStage::AwaitPath;
                Ok(DepAction::CheckPath(pp))
            },
            None => match spec {
                DependencySpec::Version(_) => {
                    cursor.stage = DepStage::AwaitSystemLib;
                    Ok(DepAction::FindSystemLib(name.clone()))
                },
                DependencySpec::Detailed { git, path, tag, branch, rev, .. } => match (git, path) {
                    (Some(u), None) => {
                        cursor.stage = DepStage::AwaitFetch;
                        let d1 = join(self.build_dir.as_str(), "deps-src");
                        let dest = join(d1.as_str(), name.as_str());
                        Ok(
                            DepAction::FetchGit {
                                name: name.clone(),
                                url: u.clone(),
                                tag: clone_opt_string(tag),
                                branch: clone_opt_string(branch),
                                rev: clone_opt_string(rev),
                                dest,
                            },
                        )
                    },
                    (Some(_), Some(_)) => Err(
                        BuildError::Dependency {
                            name: name.clone(),
                            reason: string_from("both git and path specified - ambiguous"),
                        },
                    ),
                    _ => Err(
                        BuildError::Dependency {
                            name: name.clone(),
                            reason: string_from(
                                "no source specified: specify git or path in Smidr.toml",
                            ),
                        },
                    ),
                },
            },
        }
    }

    /// One step of resolving the `[dependencies]`, in name order: take the
    /// caller's answer to the previous action, record a finished
    /// dependency's build inputs in `resolved_deps`, and say what to do
    /// next. A failure of any dependency stops resolution with its error.
    pub fn resolve_dependencies(&mut self, cursor: &mut DepCursor, event: DepEvent) -> (r: Result<
        DepAction,
        BuildError,
    >)
        requires
            cursor_ok(old(self), *old(cursor)),
            event_fits(old(cursor).stage, event),
        ensures
            same_project(final(self), old(self)),
            r is Ok ==> cursor_ok(final(self), *final(cursor)),
            r is Ok && resolved_in_order(old(self), *old(cursor)) ==> resolved_in_order(
                final(self),
                *final(cursor),
            ),
            r matches Ok(DepAction::Done) ==> final(cursor).index == dep_entries(final(self)).len(),
            ({
                let i = old(cursor).index as int;
                let es = dep_entries(old(self));
                let before = resolved_view(old(self).resolved_deps@);
                let after = resolved_view(final(self).resolved_deps@);
                match event {
                    DepEvent::Start => after == before && begins(old(self), i, *final(cursor), r),
                    DepEvent::PathChecked(exists) => after == before && (if exists {
                        r matches Ok(DepAction::Build { name, dep_root }) && name@ == es[i].0
                            && dep_root@ == probe_path(es[i].1, old(self).root@)->Some_0
                            && final(cursor).index == i && final(cursor).stage
                            == DepStage::AwaitBuild
                    } else {
                        r is Err && dependency_error(
                            r->Err_0,
                            es[i].0,
                            "path not found: "@ + probe_path(es[i].1, old(self).root@)->Some_0,
                        )
                    }),
                    DepEvent::SystemLib(Err(e)) => after == before && r == Err::<DepAction, BuildError>(e),
                    DepEvent::SystemLib(Ok(info)) => after == before.push(
                        (es[i].0, system_output(info_view(info))),
                    ) && begins(old(self), i + 1, *final(cursor), r),
                    DepEvent::Fetched(Err(e)) => after == before && r == Err::<DepAction, BuildError>(e),
                    DepEvent::Fetched(Ok(dir)) => after == before && (r matches Ok(
                        DepAction::Build { name, dep_root },
                    ) && name@ == es[i].0 && dep_root@ == dir@) && final(cursor).index == i
                        && final(cursor).stage == DepStage::AwaitBuild,
                    DepEvent::Built(Err(e)) => after == before && r == Err::<DepAction, BuildError>(e),
                    DepEvent::Built(Ok(out)) => after == before.push((es[i].0, out@)) && begins(
                        old(self),
                        i + 1,
                        *final(cursor),
                        r,
                    ),
                }
            }),
    {
        let i = cursor.index;
        match event {
            DepEvent::Start => self.begin(cursor),
            DepEvent::PathChecked(exists) => {
                let entries = self.config.dependencies.entries();
                let name = &entries[i].0;
                let spec = &entries[i].1;
                assert(dep_entries(self)[i as int] == (name@, *spec));
                let pp = match dependency_path(spec, self.root.as_str()) {
                    Some(pp) => pp,
                    None => {
                        assert(false);
                        return Err(BuildError::NoSourceFiles);
                    },
                };
                if exists {
                    cursor.stage = DepStage::AwaitBuild;
                    Ok(DepAction::Build { name: name.clone(), dep_root: pp })
                } else {
                    Err(
                        BuildError::Dependency {
                            name: name.clone(),
                            reason: str_concat("path not found: ", pp.as_str()),
                        },
                    )
                }
            },
            DepEvent::SystemLib(Err(e)) => Err(e),
            DepEvent::SystemLib(Ok(info)) => {
                let entries = self.config.dependencies.entries();
                let name = entries[i].0.clone();
                let n = entries.len();
                assert(i < n);
                let next = i + 1;
                let out = system_lib_output(&info);
                let ghost before = resolved_view(self.resolved_deps@);
                self.resolved_deps.push((name, out));
                assert(resolved_view(self.resolved_deps@) =~= before.push(
                    (dep_entries(self)[i as int].0, system_output(info_view(info))),
                ));
                cursor.index = next;
                cursor.stage = DepStage::Next;
                self.begin(cursor)
            },
            DepEvent::Fetched(Err(e)) => Err(e),
            DepEvent::Fetched(Ok(dir)) => {
                let name = self.config.dependencies.entries()[i].0.clone();
                cursor.stage = DepStage::AwaitBuild;
                Ok(DepAction::Build { name, dep_root: dir })
            },
            DepEvent::Built(Err(e)) => Err(e),
            DepEvent::Built(Ok(out)) => {
                let entries = self.config.dependencies.entries();
                let name = entries[i].0.clone();
                let n = entries.len();
                assert(i < n);
                let next = i + 1;
                let ghost before = resolved_view(self.resolved_deps@);
                let ghost ov = out@;
                self.resolved_deps.push((name, out));
                assert(resolved_view(self.resolved_deps@) =~= before.push(
                    (dep_entries(self)[i as int].0, ov),
                ));
                cursor.index = next;
                cursor.stage = DepStage::Next;
                self.begin(cursor)
            },
        }
    }

    /// The build inputs of a dependency that is itself a smidr project,
    /// built in `dep_root`: its `include/`, the project's copy of its
    /// static library (`target/<profile>/deps`), and the library itself.
    pub fn smidr_dep_output(&self, name: &str, dep_root: &str, release: bool) -> (r: BuildOutput)
        ensures
            r@.include_dirs == seq![join_path(dep_root@, "include"@)],
            r@.lib_dirs == seq![dep_cache_dir(self, release)],
            r@.libs == seq![name@],
    {
        let mut include_dirs: Vec<String> = Vec::new();
        crate::toolchain::push_string(&mut include_dirs, join(dep_root, "include"));
        let mut lib_dirs: Vec<String> = Vec::new();
        crate::toolchain::push_string(&mut lib_dirs, self.dep_cache_dir(release));
        let mut libs: Vec<String> = Vec::new();
        crate::toolchain::push_string(&mut libs, string_from(name));
        BuildOutput { include_dirs, lib_dirs, libs }
    }

    /// Where the project keeps copies of its smidr dependencies' static
    /// libraries: `target/<profile>/deps` under its build directory.
    pub fn dep_cache_dir(&self, release: bool) -> (r: String)
        ensures
            r@ == dep_cache_dir(self, release),
    {
        let profile = if release {
            "target/release"
        } else {
            "target/debug"
        };
        let d = join(self.build_dir.as_str(), profile);
        join(d.as_str(), "deps")
    }
}

/// How a dependency found in a directory is built.
#[derive(Debug, Clone, Copy, PartialEq, Eq, Structural)]
pub enum DepBuildPlan {
    /// It is a smidr project itself: build it with smidr and use its
    /// static library.
    Smidr,
    /// Build it with this build system (`Auto`: the detected one).
    Builder(BuildSystemKind),
}

/// A dependency whose directory has its own `Smidr.toml` (`has_manifest`)
/// is built with smidr; any other with the build system its spec asks for
/// (`Auto` for a version-only one).
pub fn dep_build_plan(has_manifest: bool, spec: &DependencySpec) -> (r: DepBuildPlan)
    ensures
        has_manifest ==> r == DepBuildPlan::Smidr,
        !has_manifest ==> r == DepBuildPlan::Builder(
            match *spec {
                DependencySpec::Detailed { build_system, .. } => build_system,
                DependencySpec::Version(_) => BuildSystemKind::Auto,
            },
        ),
{
    if has_manifest {
        DepBuildPlan::Smidr
    } else {
        DepBuildPlan::Builder(crate::toolchain::requested_build_system(spec))
    }
}

impl Project {
    /// Where the project keeps its copy of the static library of the smidr
    /// dependency `name`: `lib<name>.a` in [`Project::dep_cache_dir`].
    pub fn cached_dep_library(&self, name: &str, release: bool) -> (r: String)
        ensures
            r@ == join_path(dep_cache_dir(self, release), "lib"@ + name@ + ".a"@),
    {
        let dir = self.dep_cache_dir(release);
        let mut f = str_concat("lib", name);
        crate::text::push_str(&mut f, ".a");
        join(dir.as_str(), f.as_str())
    }
}

pub open spec fn profile_subdir(release: bool) -> Seq<char> {
    if release {
        "target/release"@
    } else {
        "target/debug"@
    }
}

/// `target/<profile>/deps` under the build directory.
pub open spec fn dep_cache_dir(p: &Project, release: bool) -> Seq<char> {
    join_path(join_path(p.build_dir@, profile_subdir(release)), "deps"@)
}

/// The static library a smidr dependency `name` builds, in its own tree:
/// `<dep_root>/target/<profile>/bin/lib<name>.a`.
pub fn dep_library_path(dep_root: &str, name: &str, release: bool) -> (r: String)
    ensures
        r@ == join_path(
            join_path(join_path(dep_root@, profile_subdir(release)), "bin"@),
            "lib"@ + name@ + ".a"@,
        ),
{
    let profile = if release {
        "target/release"
    } else {
        "target/debug"
    };
    let a = join(dep_root, profile);
    let b = join(a.as_str(), "bin");
    let mut f = str_concat("lib", name);
    crate::text::push_str(&mut f, ".a");
    join(b.as_str(), f.as_str())
}

/// A dependency's library is copied again unless the copy exists and is
/// at least as new as the original (times as reported by the file system).
pub fn needs_update(cached_modified: Option<u128>, original_modified: Option<u128>) -> (r: bool)
    ensures
        r == match (cached_modified, original_modified) {
            (Some(c), Some(o)) => c < o,
            _ => true,
        },
{
    match (cached_modified, original_modified) {
        (Some(c), Some(o)) => c < o,
        _ => true,
    }
}

// ---------------------------------------------------------------------
// Scaffolding a new project
// ---------------------------------------------------------------------

/// A project name must be a plain directory name: not empty, no `/` or
/// `\`, not `.` or `..`.
pub open spec fn valid_project_name(name: Seq<char>) -> bool {
    &&& name.len() > 0
    &&& !name.contains('/')
    &&& !name.contains('\\')
    &&& name != "."@
    &&& name != ".."@
}

/// Check the name given to `smidr new`.
#[verifier::loop_isolation(false)]
pub fn validate_project_name(name: &str) -> (r: Result<(), BuildError>)
    ensures
        valid_project_name(name@) ==> r is Ok,
        !valid_project_name(name@) ==> (r matches Err(BuildError::InvalidProjectName(n)) && n@
            == name@),
{
    let v = to_chars(name);
    let mut bad = v.len() == 0 || str_eq(name, ".") || str_eq(name, "..");
    let mut i: usize = 0;
    while i < v.len()
        invariant
            i <= v@.len(),
            v@ == name@,
            bad == (v@.len() == 0 || name@ == "."@ || name@ == ".."@ || exists|j: int|
                0 <= j < i && (v@[j] == '/' || v@[j] == '\\')),
        decreases v.len() - i,
    {
        if v[i] == '/' || v[i] == '\\' {
            bad = true;
        }
        i = i + 1;
    }
    proof {
        if name@.contains('/') {
            let j = choose|j: int| 0 <= j < name@.len() && name@[j] == '/';
            assert(v@[j] == '/');
        }
        if name@.contains('\\') {
            let j = choose|j: int| 0 <= j < name@.len() && name@[j] == '\\';
            assert(v@[j] == '\\');
        }
        if bad && !(v@.len() == 0 || name@ == "."@ || name@ == ".."@) {
            let j = choose|j: int| 0 <= j < i && (v@[j] == '/' || v@[j] == '\\');
            assert(name@.contains(v@[j]));
        }
    }
    if bad {
        Err(BuildError::InvalidProjectName(string_from(name)))
    } else {
        Ok(())
    }
}

/// Whether `smidr new <name>` may go ahead: the name must be valid
/// ([`validate_project_name`]), and then nothing named so may exist yet
/// (`exists` tells whether something does).
pub fn check_new_project(name: &str, exists: bool) -> (r: Result<(), BuildError>)
    ensures
        !valid_project_name(name@) ==> (r matches Err(BuildError::InvalidProjectName(n)) && n@
            == name@),
        valid_project_name(name@) && exists ==> (r matches Err(BuildError::ProjectAlreadyExists(n))
            && n@ == name@),
        valid_project_name(name@) && !exists ==> r is Ok,
{
    validate_project_name(name)?;
    if exists {
        return Err(BuildError::ProjectAlreadyExists(string_from(name)));
    }
    Ok(())
}

/// A valid project name is one plain path component: joined to any base
/// directory it names a direct child of that directory, never the
/// directory itself or its parent.
pub proof fn law_project_name_stays_inside(base: Seq<char>, name: Seq<char>)
    requires
        valid_project_name(name),
    ensures
        crate::paths::file_name_of(join_path(base, name)) == name,
        name != "."@ && name != ".."@,
        name.len() > 0,
{
    crate::paths::law_join_file_name(base, name);
}

/// Which starter file a new project gets.
#[derive(Debug, Clone, Copy, PartialEq, Eq, Structural)]
pub enum Template {
    MainC,
    LibC,
    LibH,
    GitIgnore,
}

/// The files `smidr new` writes, relative to the new project's root:
/// `src/main.c` for a binary, `src/lib.c` and `include/lib.h` for a
/// library, then `.gitignore` (`Smidr.toml` is written from the manifest).
pub open spec fn scaffold_spec(t: ProjectType) -> Seq<(Seq<char>, Template)> {
    match t {
        ProjectType::Binary => seq![("src/main.c"@, Template::MainC), (".gitignore"@, Template::GitIgnore)],
        _ => seq![
            ("src/lib.c"@, Template::LibC),
            ("include/lib.h"@, Template::LibH),
            (".gitignore"@, Template::GitIgnore),
        ],
    }
}

/// A library, static or shared, is scaffolded with a source `src/lib.c`
/// and a header `include/lib.h` (so that its own build finds both) and no
/// `main`; only a binary gets `src/main.c`, and then no library files.
/// Every project gets a `.gitignore`.
pub proof fn law_scaffold_by_type(t: ProjectType)
    ensures
        t != ProjectType::Binary ==> (exists|i: int|
            0 <= i < scaffold_spec(t).len() && #[trigger] scaffold_spec(t)[i] == (
                "include/lib.h"@,
                Template::LibH,
            )) && (exists|i: int|
            0 <= i < scaffold_spec(t).len() && #[trigger] scaffold_spec(t)[i] == (
                "src/lib.c"@,
                Template::LibC,
            )) && forall|i: int|
            0 <= i < scaffold_spec(t).len() ==> #[trigger] scaffold_spec(t)[i].1 != Template::MainC,
        t == ProjectType::Binary ==> (exists|i: int|
            0 <= i < scaffold_spec(t).len() && #[trigger] scaffold_spec(t)[i] == (
                "src/main.c"@,
                Template::MainC,
            )) && forall|i: int|
            0 <= i < scaffold_spec(t).len() ==> #[trigger] scaffold_spec(t)[i].1 != Template::LibH
                && scaffold_spec(t)[i].1 != Template::LibC,
        exists|i: int|
            0 <= i < scaffold_spec(t).len() && #[trigger] scaffold_spec(t)[i] == (
                ".gitignore"@,
                Template::GitIgnore,
            ),
{
    let s = scaffold_spec(t);
    if t != ProjectType::Binary {
        assert(s[1] == ("include/lib.h"@, Template::LibH));
        assert(s[0] == ("src/lib.c"@, Template::LibC));
        assert(s[2] == (".gitignore"@, Template::GitIgnore));
    } else {
        assert(s[0] == ("src/main.c"@, Template::MainC));
        assert(s[1] == (".gitignore"@, Template::GitIgnore));
    }
}

/// The starter files of a new project of type `t`.
pub fn scaffold_files(t: ProjectType) -> (r: Vec<(String, Template)>)
    ensures
        r@.map_values(|e: (String, Template)| (e.0@, e.1)) == scaffold_spec(t),
{
    let mut v: Vec<(String, Template)> = Vec::new();
    match t {
        ProjectType::Binary => {
            v.push((string_from("src/main.c"), Template::MainC));
        },
        _ => {
            v.push((string_from("src/lib.c"), Template::LibC));
            v.push((string_from("include/lib.h"), Template::LibH));
        },
    }
    v.push((string_from(".gitignore"), Template::GitIgnore));
    assert(v@.map_values(|e: (String, Template)| (e.0@, e.1)) =~= scaffold_spec(t));
    v
}

/// The project type `smidr new` uses: the one given with `--type`, else a
/// static library for `--lib`, else a binary.
pub fn new_project_type(explicit: Option<ProjectType>, lib: bool) -> (r: ProjectType)
    ensures
        r == match explicit {
            Some(t) => t,
            None => if lib {
                ProjectType::StaticLibrary
            } else {
                ProjectType::Binary
            },
        },
{
    match explicit {
        Some(t) => t,
        None => if lib {
            ProjectType::StaticLibrary
        } else {
            ProjectType::Binary
        },
    }
}

/// The manifest of a new project: version `0.1.0`, language C, the given
/// C standard (C17 when none), no authors, description or license; an
/// automatic compiler with no flags or libraries; nothing else.
pub fn new_manifest(name: &str, project_type: ProjectType, c_standard: Option<CStandard>) -> (r:
    ManifestConfig)
    ensures
        r.project matches Some(p) && p.name@ == name@ && p.version@ == "0.1.0"@ && p.project_type
            == project_type && p.language == Language::C && p.c_standard == (match c_standard {
            Some(s) => s,
            None => CStandard::C17,
        }) && p.cpp_standard is None && p.authors@.len() == 0 && p.authors_email@.len() == 0
            && p.description is None && p.license is None && p.output_name is None,
        r.build matches Some(b) && b.compiler == CompilerKind::Auto && b.cflags@.len() == 0
            && b.libs@.len() == 0 && b.linker_flags@.len() == 0,
        r.dependencies@ == Map::<Seq<char>, DependencySpec>::empty(),
        r.workspace is None,
        r.profile.debug is None && r.profile.release is None,
        r.extra_bins@.len() == 0,
{
    ManifestConfig {
        project: Some(
            ProjectSection {
                name: string_from(name),
                version: string_from("0.1.0"),
                authors: Vec::new(),
                authors_email: Vec::new(),
                description: None,
                license: None,
                project_type,
                language: Language::C,
                c_standard: match c_standard {
                    Some(s) => s,
                    None => CStandard::C17,
                },
                cpp_standard: None,
                output_name: None,
            },
        ),
        build: Some(
            BuildSection {
                compiler: CompilerKind::Auto,
                cflags: Vec::new(),
                libs: Vec::new(),
                linker_flags: Vec::new(),
            },
        ),
        dependencies: DependencyTable::new(),
        workspace: None,
        profile: ProfilesSection { debug: None, release: None },
        extra_bins: Vec::new(),
    }
}

} // verus!

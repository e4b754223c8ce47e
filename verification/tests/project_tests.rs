use smidr::config::{
    BuildSection, BuildSystemKind, CStandard, CompilerKind, DependencySpec, Language, ManifestConfig,
    ProfilesSection, ProjectSection, ProjectType,
};
use smidr::dep_table::DependencyTable;
use smidr::error::BuildError;
use smidr::project::{
    check_new_project, collect_files, dep_build_plan, dep_library_path, needs_update, new_manifest,
    new_project_type, scaffold_files, validate_project_name, DepAction, DepBuildPlan, DepCursor,
    DepEvent, DepStage, Project, Template,
};
use smidr::resolver::SystemLibInfo;
use smidr::toolchain::BuildOutput;

fn section(project_type: ProjectType) -> ProjectSection {
    ProjectSection {
        name: "demo".to_string(),
        version: "0.1.0".to_string(),
        project_type,
        language: Language::C,
        c_standard: CStandard::C11,
        cpp_standard: None,
        authors: vec![],
        authors_email: vec![],
        description: None,
        license: None,
        output_name: None,
    }
}

fn config(project_type: Option<ProjectType>, deps: DependencyTable) -> ManifestConfig {
    ManifestConfig {
        project: project_type.map(section),
        build: Some(BuildSection {
            compiler: CompilerKind::Auto,
            cflags: vec![],
            libs: vec![],
            linker_flags: vec![],
        }),
        dependencies: deps,
        workspace: None,
        profile: ProfilesSection::default(),
        extra_bins: vec![],
    }
}

fn detailed(git: Option<&str>, path: Option<&str>) -> DependencySpec {
    DependencySpec::Detailed {
        git: git.map(|s| s.to_string()),
        path: path.map(|s| s.to_string()),
        tag: Some("v1.0.0".to_string()),
        branch: None,
        rev: None,
        build_system: BuildSystemKind::Auto,
        build_commands: vec![],
        extra_includes: vec![],
        libs: vec![],
    }
}

fn strings(v: &[&str]) -> Vec<String> {
    v.iter().map(|s| s.to_string()).collect()
}

#[test]
fn load_sets_standard_dirs() {
    let p = Project::load("/work/demo", config(Some(ProjectType::Binary), DependencyTable::new()));
    assert_eq!(p.root, "/work/demo");
    assert_eq!(p.src_dir, "/work/demo/src");
    assert_eq!(p.build_dir, "/work/demo/target");
    assert_eq!(p.install_dir, "/work/demo/target/deps");
    assert!(p.resolved_deps.is_empty());
    assert_eq!(p.include_dir(), "/work/demo/include");
    assert_eq!(p.dep_prefix("zlib"), "/work/demo/target/deps/zlib");
}

#[test]
fn source_files_filters_extensions() {
    let p = Project::load("/w", config(Some(ProjectType::Binary), DependencyTable::new()));
    let found = strings(&["/w/src/main.c", "/w/src/notes.txt", "/w/src/x.cpp", "/w/src/y.cc", "/w/src/z.cxx", "/w/src/h.h"]);
    assert_eq!(
        p.source_files(&found).unwrap(),
        strings(&["/w/src/main.c", "/w/src/x.cpp", "/w/src/y.cc", "/w/src/z.cxx"])
    );
}

#[test]
fn empty_src_fails() {
    let p = Project::load("/w", config(Some(ProjectType::Binary), DependencyTable::new()));
    assert_eq!(p.source_files(&strings(&["/w/src/readme.md"])), Err(BuildError::NoSourceFiles));
    let lib = Project::load("/w", config(Some(ProjectType::StaticLibrary), DependencyTable::new()));
    assert_eq!(lib.source_files(&vec![]), Err(BuildError::NoSourceFiles));
    let root_only = Project::load("/w", config(None, DependencyTable::new()));
    assert_eq!(root_only.source_files(&strings(&["/w/src/x.h"])), Err(BuildError::NoSourceFiles));
}

#[test]
fn library_without_headers_fails() {
    let lib = Project::load("/w", config(Some(ProjectType::StaticLibrary), DependencyTable::new()));
    assert_eq!(lib.header_files(&strings(&["/w/include/a.c"])), Err(BuildError::NoHeaderFiles));
    assert_eq!(
        lib.header_files(&strings(&["/w/include/a.h", "/w/include/b.hpp", "/w/include/c.hh"])).unwrap(),
        strings(&["/w/include/a.h", "/w/include/b.hpp", "/w/include/c.hh"])
    );
    let bin = Project::load("/w", config(Some(ProjectType::Binary), DependencyTable::new()));
    assert_eq!(bin.header_files(&vec![]), Ok(vec![]));
    let shared = Project::load("/w", config(Some(ProjectType::SharedLibrary), DependencyTable::new()));
    assert_eq!(shared.header_files(&vec![]), Err(BuildError::NoHeaderFiles));
    let root_only = Project::load("/w", config(None, DependencyTable::new()));
    assert_eq!(root_only.header_files(&vec![]), Ok(vec![]));
}

#[test]
fn formattable_files_cover_sources_and_headers() {
    let p = Project::load("/w", config(Some(ProjectType::Binary), DependencyTable::new()));
    let found = strings(&["a.c", "b.h", "c.hxx", "d.txt", "e.cc", "f.rs"]);
    assert_eq!(p.formattable_files(&found), strings(&["a.c", "b.h", "c.hxx", "e.cc"]));
}

#[test]
fn collect_files_keeps_order() {
    let found = strings(&["z.c", "a.h", "m.c"]);
    assert_eq!(collect_files(&found, &vec!["c"]), strings(&["z.c", "m.c"]));
}

#[test]
fn add_and_remove_dependency() {
    let mut p = Project::load("/w", config(Some(ProjectType::Binary), DependencyTable::new()));
    p.add_dependency("zlib");
    match p.config.dependencies.get("zlib") {
        Some(DependencySpec::Version(v)) => assert_eq!(v, "*"),
        _ => panic!("expected a version dependency"),
    }
    p.remove_dependency("zlib");
    assert!(!p.config.dependencies.contains_key("zlib"));
    p.remove_dependency("absent");
    assert_eq!(p.config.dependencies.len(), 0);
}

#[test]
fn resolve_with_no_dependencies_is_done() {
    let mut p = Project::load("/w", config(Some(ProjectType::Binary), DependencyTable::new()));
    let mut c = DepCursor::new();
    assert!(matches!(p.resolve_dependencies(&mut c, DepEvent::Start), Ok(DepAction::Done)));
}

#[test]
fn resolve_walks_dependencies_in_name_order() {
    let mut deps = DependencyTable::new();
    deps.insert("zlib".to_string(), DependencySpec::Version("*".to_string()));
    deps.insert("local".to_string(), detailed(None, Some("vendor/local")));
    deps.insert("remote".to_string(), detailed(Some("https://g/r.git"), None));
    let mut p = Project::load("/w", config(Some(ProjectType::Binary), deps));
    let mut c = DepCursor::new();

    let a = p.resolve_dependencies(&mut c, DepEvent::Start);
    match a {
        Ok(DepAction::CheckPath(path)) => assert_eq!(path, "/w/vendor/local"),
        _ => panic!("expected a path check"),
    }
    assert_eq!(c.stage, DepStage::AwaitPath);
    assert!(c.accepts(&DepEvent::PathChecked(true)));
    assert!(!c.accepts(&DepEvent::Start));

    match p.resolve_dependencies(&mut c, DepEvent::PathChecked(true)) {
        Ok(DepAction::Build { name, dep_root }) => {
            assert_eq!(name, "local");
            assert_eq!(dep_root, "/w/vendor/local");
        }
        _ => panic!("expected a build"),
    }
    let out = BuildOutput {
        include_dirs: strings(&["/w/vendor/local/include"]),
        lib_dirs: vec![],
        libs: strings(&["local"]),
    };
    match p.resolve_dependencies(&mut c, DepEvent::Built(Ok(out))) {
        Ok(DepAction::FetchGit { name, url, tag, branch, rev, dest }) => {
            assert_eq!(name, "remote");
            assert_eq!(url, "https://g/r.git");
            assert_eq!(tag, Some("v1.0.0".to_string()));
            assert_eq!(branch, None);
            assert_eq!(rev, None);
            assert_eq!(dest, "/w/target/deps-src/remote");
        }
        _ => panic!("expected a fetch"),
    }
    assert_eq!(p.resolved_deps.len(), 1);
    assert_eq!(p.resolved_deps[0].0, "local");

    match p.resolve_dependencies(&mut c, DepEvent::Fetched(Ok("/cache/remote".to_string()))) {
        Ok(DepAction::Build { name, dep_root }) => {
            assert_eq!(name, "remote");
            assert_eq!(dep_root, "/cache/remote");
        }
        _ => panic!("expected a build"),
    }
    match p.resolve_dependencies(&mut c, DepEvent::Built(Ok(BuildOutput::new()))) {
        Ok(DepAction::FindSystemLib(n)) => assert_eq!(n, "zlib"),
        _ => panic!("expected a system lookup"),
    }
    let info = SystemLibInfo { cflags: strings(&["-I/usr/include"]), libs: strings(&["-lz"]) };
    assert!(matches!(p.resolve_dependencies(&mut c, DepEvent::SystemLib(Ok(info))), Ok(DepAction::Done)));
    assert_eq!(p.resolved_deps.len(), 3);
    let names: Vec<&str> = p.resolved_deps.iter().map(|d| d.0.as_str()).collect();
    assert_eq!(names, vec!["local", "remote", "zlib"]);
    assert_eq!(c.index, 3);
    assert_eq!(p.resolved_deps[2].1.include_dirs, strings(&["/usr/include"]));
    assert_eq!(p.resolved_deps[2].1.libs, strings(&["z"]));
}

#[test]
fn resolve_reports_missing_path() {
    let mut deps = DependencyTable::new();
    deps.insert("local".to_string(), detailed(None, Some("nope")));
    let mut p = Project::load("/w", config(Some(ProjectType::Binary), deps));
    let mut c = DepCursor::new();
    let _ = p.resolve_dependencies(&mut c, DepEvent::Start);
    assert_eq!(
        p.resolve_dependencies(&mut c, DepEvent::PathChecked(false)).err(),
        Some(BuildError::Dependency { name: "local".to_string(), reason: "path not found: /w/nope".to_string() })
    );
}

#[test]
fn resolve_rejects_ambiguous_and_sourceless_specs() {
    let mut both = DependencyTable::new();
    both.insert("x".to_string(), detailed(Some("u"), Some("p")));
    let mut p = Project::load("/w", config(Some(ProjectType::Binary), both));
    assert_eq!(
        p.resolve_dependencies(&mut DepCursor::new(), DepEvent::Start).err(),
        Some(BuildError::Dependency {
            name: "x".to_string(),
            reason: "both git and path specified - ambiguous".to_string()
        })
    );
    let mut none = DependencyTable::new();
    none.insert("y".to_string(), detailed(None, None));
    let mut q = Project::load("/w", config(Some(ProjectType::Binary), none));
    assert_eq!(
        q.resolve_dependencies(&mut DepCursor::new(), DepEvent::Start).err(),
        Some(BuildError::Dependency {
            name: "y".to_string(),
            reason: "no source specified: specify git or path in Smidr.toml".to_string()
        })
    );
}

#[test]
fn resolve_passes_errors_through() {
    let mut deps = DependencyTable::new();
    deps.insert("zlib".to_string(), DependencySpec::Version("*".to_string()));
    let mut p = Project::load("/w", config(Some(ProjectType::Binary), deps));
    let mut c = DepCursor::new();
    let _ = p.resolve_dependencies(&mut c, DepEvent::Start);
    let e = BuildError::Dependency { name: "zlib".to_string(), reason: "gone".to_string() };
    assert_eq!(p.resolve_dependencies(&mut c, DepEvent::SystemLib(Err(e.clone()))).err(), Some(e));
    assert!(p.resolved_deps.is_empty());
}

#[test]
fn smidr_dependency_outputs() {
    let p = Project::load("/w", config(Some(ProjectType::Binary), DependencyTable::new()));
    assert_eq!(p.dep_cache_dir(false), "/w/target/target/debug/deps");
    assert_eq!(p.dep_cache_dir(true), "/w/target/target/release/deps");
    let out = p.smidr_dep_output("core", "/deps/core", true);
    assert_eq!(out.include_dirs, strings(&["/deps/core/include"]));
    assert_eq!(out.lib_dirs, strings(&["/w/target/target/release/deps"]));
    assert_eq!(out.libs, strings(&["core"]));
    assert_eq!(dep_library_path("/deps/core", "core", false), "/deps/core/target/debug/bin/libcore.a");
    assert_eq!(p.cached_dep_library("core", true), "/w/target/target/release/deps/libcore.a");
}

#[test]
fn library_copy_freshness() {
    assert!(needs_update(None, Some(5)));
    assert!(needs_update(Some(5), None));
    assert!(needs_update(Some(4), Some(5)));
    assert!(!needs_update(Some(5), Some(5)));
    assert!(!needs_update(Some(6), Some(5)));
}

#[test]
fn project_name_validation() {
    assert_eq!(validate_project_name("hello"), Ok(()));
    assert_eq!(validate_project_name("my-app_2"), Ok(()));
    for bad in ["", ".", "..", "a/b", "a\\b", "/abs"] {
        assert_eq!(validate_project_name(bad), Err(BuildError::InvalidProjectName(bad.to_string())));
    }
    assert_eq!(validate_project_name("..."), Ok(()));
}

#[test]
fn scaffold_templates() {
    let bin = scaffold_files(ProjectType::Binary);
    assert_eq!(bin, vec![("src/main.c".to_string(), Template::MainC), (".gitignore".to_string(), Template::GitIgnore)]);
    let lib = scaffold_files(ProjectType::SharedLibrary);
    assert_eq!(
        lib,
        vec![
            ("src/lib.c".to_string(), Template::LibC),
            ("include/lib.h".to_string(), Template::LibH),
            (".gitignore".to_string(), Template::GitIgnore),
        ]
    );
}

#[test]
fn new_project_type_choice() {
    assert_eq!(new_project_type(None, false), ProjectType::Binary);
    assert_eq!(new_project_type(None, true), ProjectType::StaticLibrary);
    assert_eq!(new_project_type(Some(ProjectType::SharedLibrary), true), ProjectType::SharedLibrary);
}

#[test]
fn new_manifest_contents() {
    let m = new_manifest("hello", ProjectType::Binary, None);
    let p = m.project.as_ref().unwrap();
    assert_eq!(p.name, "hello");
    assert_eq!(p.version, "0.1.0");
    assert_eq!(p.project_type, ProjectType::Binary);
    assert_eq!(p.language, Language::C);
    assert_eq!(p.c_standard, CStandard::C17);
    assert!(p.authors.is_empty());
    let b = m.build.as_ref().unwrap();
    assert_eq!(b.compiler, CompilerKind::Auto);
    assert!(b.cflags.is_empty());
    assert_eq!(m.dependencies.len(), 0);
    assert!(m.workspace.is_none());
    assert!(m.profile.is_empty());
    let g = new_manifest("g", ProjectType::StaticLibrary, Some(CStandard::Gnu11));
    assert_eq!(g.project.unwrap().c_standard, CStandard::Gnu11);
}

#[test]
fn valid_names_stay_inside_the_directory() {
    for name in ["hello", "a.b", "..."] {
        assert_eq!(validate_project_name(name), Ok(()));
        let joined = smidr::paths::join("/work", name);
        assert_eq!(smidr::paths::file_name(&joined), name);
    }
}

#[test]
fn new_project_target_checks() {
    assert_eq!(check_new_project("hello", false), Ok(()));
    assert_eq!(check_new_project("hello", true), Err(BuildError::ProjectAlreadyExists("hello".to_string())));
    assert_eq!(check_new_project("a/b", true), Err(BuildError::InvalidProjectName("a/b".to_string())));
    assert_eq!(check_new_project("", false), Err(BuildError::InvalidProjectName(String::new())));
}

#[test]
fn dependency_build_plans() {
    let spec = detailed(None, Some("vendor/x"));
    assert_eq!(dep_build_plan(true, &spec), DepBuildPlan::Smidr);
    assert_eq!(dep_build_plan(false, &spec), DepBuildPlan::Builder(BuildSystemKind::Auto));
    let v = DependencySpec::Version("1".to_string());
    assert_eq!(dep_build_plan(false, &v), DepBuildPlan::Builder(BuildSystemKind::Auto));
    let mut cm = detailed(None, Some("vendor/x"));
    if let DependencySpec::Detailed { build_system, .. } = &mut cm {
        *build_system = BuildSystemKind::Meson;
    }
    assert_eq!(dep_build_plan(false, &cm), DepBuildPlan::Builder(BuildSystemKind::Meson));
    assert_eq!(dep_build_plan(true, &cm), DepBuildPlan::Smidr);
}

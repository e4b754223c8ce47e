use smidr::builder::{
    build_sections, build_targets, candidates, check_runnable, clang_format_missing, compile_args,
    compile_failure, compile_failure_in, compile_options, compiler_binary, fmt_args, link_command, link_failure,
    fmt_outcome, object_path, profile_build_dir, run_outcome, run_target, workspace_members, BuildAction,
    BuildEvent, BuildRun, BuildStage, CompileOptions, CompilerChoice,
};
use smidr::config::{
    BuildSection, CStandard, CompilerKind, Language, ManifestConfig, OptLevel, ProfilesSection,
    ProjectSection, ProjectType, ResolvedProfile, WarningLevel, WorkspacesConfig,
};
use smidr::dep_table::DependencyTable;
use smidr::diagnostics::Severity;
use smidr::error::BuildError;
use smidr::project::Project;
use smidr::toolchain::BuildOutput;

fn strings(v: &[&str]) -> Vec<String> {
    v.iter().map(|s| s.to_string()).collect()
}

fn section(project_type: ProjectType, output_name: Option<&str>) -> ProjectSection {
    ProjectSection {
        name: "demo".to_string(),
        version: "0.1.0".to_string(),
        project_type,
        language: Language::C,
        c_standard: CStandard::C99,
        cpp_standard: None,
        authors: vec![],
        authors_email: vec![],
        description: None,
        license: None,
        output_name: output_name.map(|s| s.to_string()),
    }
}

fn build_section() -> BuildSection {
    BuildSection {
        compiler: CompilerKind::Gcc,
        cflags: strings(&["-Wall"]),
        libs: strings(&["m"]),
        linker_flags: strings(&["-pthread"]),
    }
}

fn manifest(project: Option<ProjectSection>, build: Option<BuildSection>, members: Option<&[&str]>) -> ManifestConfig {
    ManifestConfig {
        project,
        build,
        dependencies: DependencyTable::new(),
        workspace: members.map(|m| WorkspacesConfig { members: strings(m) }),
        profile: ProfilesSection::default(),
        extra_bins: vec![],
    }
}

fn profile(debug_symbols: bool, lto: bool, strip: bool, opt_level: OptLevel) -> ResolvedProfile {
    ResolvedProfile { opt_level, warnings: WarningLevel::Standard, debug_symbols, lto, strip }
}

fn options() -> CompileOptions {
    CompileOptions {
        compiler: "gcc".to_string(),
        includes: strings(&["/w/include", "/d/include"]),
        cflags: vec![],
        dep_libs: strings(&["foo"]),
        dep_lib_dirs: strings(&["/d/lib"]),
    }
}

#[test]
fn sections_required_for_build() {
    let ok = Project::load("/w", manifest(Some(section(ProjectType::Binary, None)), Some(build_section()), None));
    let (p, b) = build_sections(&ok).unwrap();
    assert_eq!(p.name, "demo");
    assert_eq!(b.compiler, CompilerKind::Gcc);
    let root_only = Project::load("/w", manifest(None, Some(build_section()), Some(&["a"][..])));
    assert_eq!(
        build_sections(&root_only).err(),
        Some(BuildError::Dependency {
            name: "/w".to_string(),
            reason: "cannot build: Smidr.toml has no [project] section (this is a workspace root)".to_string()
        })
    );
    let no_build = Project::load("/w", manifest(Some(section(ProjectType::Binary, None)), None, None));
    assert_eq!(
        build_sections(&no_build).err(),
        Some(BuildError::Dependency {
            name: "/w".to_string(),
            reason: "cannot build: Smidr.toml has no [build] section".to_string()
        })
    );
}

#[test]
fn profile_directories() {
    let p = Project::load("/w", manifest(Some(section(ProjectType::Binary, None)), Some(build_section()), None));
    assert_eq!(profile_build_dir(&p, true), "/w/target/release");
    assert_eq!(profile_build_dir(&p, false), "/w/target/debug");
}

#[test]
fn compiler_candidates_in_priority_order() {
    assert_eq!(candidates(CompilerKind::Auto), vec!["clang", "tcc", "cc", "gcc"]);
    assert_eq!(candidates(CompilerKind::Gcc), vec!["gcc"]);
    assert_eq!(candidates(CompilerKind::Tcc), vec!["tcc"]);
    assert_eq!(candidates(CompilerKind::Clang), vec!["clang"]);
}

#[test]
fn compiler_choice_probes_then_uses_first_available() {
    assert!(matches!(compiler_binary(CompilerKind::Auto, &vec![]), Ok(CompilerChoice::Probe("clang"))));
    assert!(matches!(compiler_binary(CompilerKind::Auto, &vec![false]), Ok(CompilerChoice::Probe("tcc"))));
    assert!(matches!(compiler_binary(CompilerKind::Auto, &vec![false, false, true]), Ok(CompilerChoice::Use("cc"))));
    assert!(matches!(compiler_binary(CompilerKind::Auto, &vec![true]), Ok(CompilerChoice::Use("clang"))));
    assert_eq!(
        compiler_binary(CompilerKind::Auto, &vec![false, false, false, false]).err(),
        Some(BuildError::CompilerNotFound("clang, tcc, cc, gcc".to_string()))
    );
    assert_eq!(
        compiler_binary(CompilerKind::Tcc, &vec![false]).err(),
        Some(BuildError::CompilerNotFound("tcc".to_string()))
    );
    assert!(matches!(compiler_binary(CompilerKind::Gcc, &vec![true]), Ok(CompilerChoice::Use("gcc"))));
}

#[test]
fn options_collect_dependency_inputs() {
    let mut p = Project::load("/w", manifest(Some(section(ProjectType::Binary, None)), Some(build_section()), None));
    p.resolved_deps.push((
        "a".to_string(),
        BuildOutput { include_dirs: strings(&["/a/inc"]), lib_dirs: strings(&["/a/lib"]), libs: strings(&["a"]) },
    ));
    p.resolved_deps.push((
        "b".to_string(),
        BuildOutput { include_dirs: strings(&["/b/inc", "/b/inc2"]), lib_dirs: vec![], libs: strings(&["b1", "b2"]) },
    ));
    let o = compile_options(&p, &build_section(), "clang");
    assert_eq!(o.compiler, "clang");
    assert_eq!(o.includes, strings(&["/w/include", "/a/inc", "/b/inc", "/b/inc2"]));
    assert_eq!(o.cflags, strings(&["-Wall"]));
    assert_eq!(o.dep_libs, strings(&["a", "b1", "b2"]));
    assert_eq!(o.dep_lib_dirs, strings(&["/a/lib"]));
}

#[test]
fn object_paths() {
    assert_eq!(object_path("/w/target/debug", "/w/src/main.c"), "/w/target/debug/main.o");
    assert_eq!(object_path("/w/target/debug", "/w/src/sub/x.test.cpp"), "/w/target/debug/x.test.o");
}

#[test]
fn compile_arguments() {
    let args = compile_args(&options(), "src/a.c", "t/a.o", profile(true, false, false, OptLevel::Off), CStandard::C11);
    assert_eq!(
        args,
        strings(&["-c", "src/a.c", "-o", "t/a.o", "-I/w/include", "-I/d/include", "-O0", "-Wall", "-Wextra", "-g", "-std=c11"])
    );
    let rel = compile_args(&options(), "a.c", "a.o", profile(false, true, false, OptLevel::Max), CStandard::Gnu17);
    assert_eq!(rel, strings(&["-c", "a.c", "-o", "a.o", "-I/w/include", "-I/d/include", "-O3", "-Wall", "-Wextra", "-std=gnu17"]));
    let s = compile_args(&options(), "a.c", "a.o", profile(false, false, false, OptLevel::Size), CStandard::C89);
    assert_eq!(s[6], "-Os");
    let sp = compile_args(&options(), "a.c", "a.o", profile(false, false, false, OptLevel::Speed), CStandard::C89);
    assert_eq!(sp[6], "-O2");
}

#[test]
fn compile_failure_points_at_first_diagnostic() {
    let stderr = b"a.c: In function 'main':\na.c:3:9: error: 'x' undeclared\na.c:4:1: warning: w\n";
    let (d, e) = compile_failure("src/a.c", stderr);
    let d = d.unwrap();
    assert_eq!(d.line, 3);
    assert_eq!(d.column, 9);
    assert_eq!(d.severity, Severity::Error);
    assert_eq!(e, BuildError::Compile("src/a.c".to_string(), "See error details above...".to_string()));
}

#[test]
fn compile_failure_without_diagnostic_keeps_stderr() {
    let (d, e) = compile_failure("src/a.c", b"cc1: out of memory\n");
    assert!(d.is_none());
    assert_eq!(e, BuildError::Compile("src/a.c".to_string(), "cc1: out of memory\n".to_string()));
    let (d2, e2) = compile_failure("x.c", &[0x66, 0xff, 0x6f]);
    assert!(d2.is_none());
    assert_eq!(e2, BuildError::Compile("x.c".to_string(), "f\u{fffd}o".to_string()));
}

#[test]
fn link_binary() {
    let l = link_command(
        &section(ProjectType::Binary, None),
        &build_section(),
        &options(),
        &strings(&["a.o", "b.o"]),
        "/w/target/release",
        profile(false, true, true, OptLevel::Max),
    );
    assert_eq!(l.program, "gcc");
    assert_eq!(l.output, "/w/target/release/bin/demo");
    assert_eq!(
        l.args,
        strings(&["a.o", "b.o", "-o", "/w/target/release/bin/demo", "-L/d/lib", "-lfoo", "-lm", "-pthread", "-flto", "-s"])
    );
}

#[test]
fn link_libraries() {
    let st = link_command(
        &section(ProjectType::StaticLibrary, Some("core")),
        &build_section(),
        &options(),
        &strings(&["a.o"]),
        "/t",
        profile(false, true, true, OptLevel::Max),
    );
    assert_eq!(st.program, "ar");
    assert_eq!(st.output, "/t/bin/libcore.a");
    assert_eq!(st.args, strings(&["rcs", "/t/bin/libcore.a", "a.o"]));
    let sh = link_command(
        &section(ProjectType::SharedLibrary, None),
        &build_section(),
        &options(),
        &strings(&["a.o"]),
        "/t",
        profile(false, true, true, OptLevel::Max),
    );
    assert_eq!(sh.program, "gcc");
    assert_eq!(sh.output, "/t/bin/libdemo.so");
    assert_eq!(sh.args, strings(&["-shared", "a.o", "-o", "/t/bin/libdemo.so", "-L/d/lib", "-lfoo", "-lm", "-pthread"]));
}

#[test]
fn link_errors_carry_stderr() {
    assert_eq!(link_failure(b"undefined reference to `f'"), BuildError::Link("undefined reference to `f'".to_string()));
}

#[test]
fn run_targets() {
    let p = Project::load("/w", manifest(Some(section(ProjectType::Binary, Some("tool"))), Some(build_section()), None));
    assert_eq!(run_target(&p, false), Ok("/w/target/debug/bin/tool".to_string()));
    assert_eq!(run_target(&p, true), Ok("/w/target/release/bin/tool".to_string()));
    let root = Project::load("/w", manifest(None, None, None));
    assert_eq!(
        run_target(&root, false),
        Err(BuildError::Dependency {
            name: "/w".to_string(),
            reason: "cannot run: Smidr.toml has no [project] section".to_string()
        })
    );
}

#[test]
fn formatting_inputs() {
    assert_eq!(clang_format_missing(), BuildError::CompilerNotFound("clang-format".to_string()));
    assert_eq!(fmt_args(&strings(&["a.c", "b.h"])), Some(strings(&["-i", "a.c", "b.h"])));
    assert_eq!(fmt_args(&vec![]), None);
    assert_eq!(fmt_outcome(true, Some(0)), Ok(()));
    assert_eq!(
        fmt_outcome(false, Some(1)),
        Err(BuildError::CommandFailed { cmd: "clang-format".to_string(), code: Some(1) })
    );
    assert_eq!(run_outcome("/w/bin/app", true, Some(0)), Ok(()));
    assert_eq!(
        run_outcome("/w/bin/app", false, None),
        Err(BuildError::CommandFailed { cmd: "/w/bin/app".to_string(), code: None })
    );
}

#[test]
fn workspace_build_order() {
    let both = manifest(Some(section(ProjectType::Binary, None)), Some(build_section()), Some(&["libs/a", "apps/b"][..]));
    assert_eq!(workspace_members("/ws", &both), strings(&["/ws/libs/a", "/ws/apps/b"]));
    assert_eq!(build_targets("/ws", &both), strings(&["/ws/libs/a", "/ws/apps/b", "/ws"]));
    let root_only = manifest(None, None, Some(&["m"][..]));
    assert_eq!(build_targets("/ws", &root_only), strings(&["/ws/m"]));
    let single = manifest(Some(section(ProjectType::Binary, None)), Some(build_section()), None);
    assert!(workspace_members("/ws", &single).is_empty());
    assert_eq!(build_targets("/ws", &single), strings(&["/ws"]));
}

#[test]
fn run_needs_a_project_section() {
    let single = manifest(Some(section(ProjectType::Binary, None)), Some(build_section()), None);
    assert_eq!(check_runnable("/ws", &single), Ok(()));
    let root_only = manifest(None, None, Some(&["m"][..]));
    assert_eq!(
        check_runnable("/ws", &root_only),
        Err(BuildError::Dependency {
            name: "/ws".to_string(),
            reason: "cannot run: this Smidr.toml has no [project] section (workspace root only). Run from inside a specific member directory instead.".to_string()
        })
    );
}

#[test]
fn compile_failure_from_text() {
    let (d, e) = compile_failure_in("m.c", "m.c:1:2: warning: w\nm.c:3:4: error: e\n");
    let d = d.unwrap();
    assert_eq!(d.severity, Severity::Warning);
    assert_eq!(d.line, 1);
    assert_eq!(e, BuildError::Compile("m.c".to_string(), "See error details above...".to_string()));
    let (none, raw) = compile_failure_in("m.c", "ld: cannot find -lfoo");
    assert!(none.is_none());
    assert_eq!(raw, BuildError::Compile("m.c".to_string(), "ld: cannot find -lfoo".to_string()));
}

#[test]
fn warning_levels_become_flags() {
    let mut p = profile(false, false, false, OptLevel::Off);
    p.warnings = WarningLevel::Off;
    let off = compile_args(&options(), "a.c", "a.o", p, CStandard::C99);
    assert!(!off.iter().any(|a| a.starts_with("-W")));
    p.warnings = WarningLevel::Strict;
    let strict = compile_args(&options(), "a.c", "a.o", p, CStandard::C99);
    assert_eq!(strict[7..11].to_vec(), strings(&["-Wall", "-Wextra", "-Werror", "-Wpedantic"]));
}

fn build_project_for(project_type: ProjectType) -> Project {
    Project::load("/w", manifest(Some(section(project_type, None)), Some(build_section()), None))
}

#[test]
fn build_run_compiles_in_order_then_writes_db_then_links() {
    let p = build_project_for(ProjectType::Binary);
    let mut run = BuildRun::new(&p, "gcc", false, strings(&["/w/src/a.c", "/w/src/b.c"])).unwrap();
    match run.step(BuildEvent::Start) {
        Ok(BuildAction::Compile { program, args }) => {
            assert_eq!(program, "gcc");
            assert_eq!(args[..4].to_vec(), strings(&["-c", "/w/src/a.c", "-o", "/w/target/debug/a.o"]));
        }
        _ => panic!("expected a compile"),
    }
    assert!(run.accepts(&BuildEvent::Compiled { ok: true, command: String::new(), stderr: vec![] }));
    assert!(!run.accepts(&BuildEvent::DbWritten));
    match run.step(BuildEvent::Compiled { ok: true, command: "cmd a".to_string(), stderr: vec![] }) {
        Ok(BuildAction::Compile { args, .. }) => assert_eq!(args[1], "/w/src/b.c"),
        _ => panic!("expected a compile"),
    }
    assert_eq!(run.db.len(), 1);
    assert_eq!(run.db[0].command, "cmd a");
    assert_eq!(run.db[0].file, "/w/src/a.c");
    assert_eq!(run.db[0].output, "/w/target/debug/a.o");
    match run.step(BuildEvent::Compiled { ok: true, command: "cmd b".to_string(), stderr: vec![] }) {
        Ok(BuildAction::WriteCompileDb { path, entries }) => {
            assert_eq!(path, "/w/compile_commands.json");
            assert_eq!(entries.len(), 2);
            assert_eq!(entries[0].file, "/w/src/a.c");
            assert_eq!(entries[0].command, "cmd a");
            assert_eq!(entries[1].output, "/w/target/debug/b.o");
            assert_eq!(entries[1].directory, "/w");
        }
        _ => panic!("expected the compile database"),
    }
    match run.step(BuildEvent::DbWritten) {
        Ok(BuildAction::Link(l)) => {
            assert_eq!(l.program, "gcc");
            assert_eq!(l.output, "/w/target/debug/bin/demo");
            assert_eq!(l.args[..2].to_vec(), strings(&["/w/target/debug/a.o", "/w/target/debug/b.o"]));
        }
        _ => panic!("expected a link"),
    }
    assert!(matches!(run.step(BuildEvent::Linked { ok: true, stderr: vec![] }), Ok(BuildAction::Done)));
    assert_eq!(run.stage, BuildStage::Finished);
}

#[test]
fn build_run_stops_at_first_failed_compile() {
    let p = build_project_for(ProjectType::Binary);
    let mut run = BuildRun::new(&p, "gcc", true, strings(&["/w/src/a.c", "/w/src/b.c"])).unwrap();
    let _ = run.step(BuildEvent::Start);
    let e = run.step(BuildEvent::Compiled {
        ok: false,
        command: String::new(),
        stderr: b"/w/src/a.c:1:1: error: bad\n".to_vec(),
    });
    assert_eq!(e.err(), Some(BuildError::Compile("/w/src/a.c".to_string(), "See error details above...".to_string())));
    assert_eq!(run.stage, BuildStage::Finished);
    assert!(!run.accepts(&BuildEvent::DbWritten));
    assert!(!run.accepts(&BuildEvent::Linked { ok: true, stderr: vec![] }));
}

#[test]
fn build_run_reports_link_failure() {
    let p = build_project_for(ProjectType::StaticLibrary);
    let mut run = BuildRun::new(&p, "gcc", false, strings(&["/w/src/a.c"])).unwrap();
    let _ = run.step(BuildEvent::Start);
    let _ = run.step(BuildEvent::Compiled { ok: true, command: "c".to_string(), stderr: vec![] });
    match run.step(BuildEvent::DbWritten) {
        Ok(BuildAction::Link(l)) => assert_eq!(l.program, "ar"),
        _ => panic!("expected a link"),
    }
    assert_eq!(
        run.step(BuildEvent::Linked { ok: false, stderr: b"ar: boom".to_vec() }).err(),
        Some(BuildError::Link("ar: boom".to_string()))
    );
}

#[test]
fn build_run_needs_sections() {
    let root_only = Project::load("/w", manifest(None, None, None));
    assert!(BuildRun::new(&root_only, "gcc", false, vec![]).is_err());
}

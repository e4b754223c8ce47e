use smidr::config::{
    BuildSection, BuildSystemKind, CStandard, CompilerKind, CppStandard, DependencySpec, Language,
    ManifestConfig, OptLevel, ProfileSection, ProfilesSection, ProjectSection, ProjectType,
    ResolvedProfile, WarningLevel,
};
use smidr::dep_table::DependencyTable;

fn section(name: &str, output_name: Option<&str>) -> ProjectSection {
    ProjectSection {
        name: name.to_string(),
        version: "0.1.0".to_string(),
        project_type: ProjectType::Binary,
        language: Language::C,
        c_standard: CStandard::C17,
        cpp_standard: None,
        authors: vec![],
        authors_email: vec![],
        description: None,
        license: None,
        output_name: output_name.map(|s| s.to_string()),
    }
}

fn manifest(profile: ProfilesSection) -> ManifestConfig {
    ManifestConfig {
        project: Some(section("app", None)),
        build: Some(BuildSection {
            compiler: CompilerKind::Auto,
            cflags: vec![],
            libs: vec![],
            linker_flags: vec![],
        }),
        dependencies: DependencyTable::new(),
        workspace: None,
        profile,
        extra_bins: vec![],
    }
}

fn empty_section() -> ProfileSection {
    ProfileSection { opt_level: None, warnings: None, debug_symbols: None, lto: None, strip: None }
}

#[test]
fn release_profile_defaults() {
    let m = manifest(ProfilesSection::default());
    assert_eq!(
        m.get_release_profile(),
        ResolvedProfile {
            opt_level: OptLevel::Max,
            warnings: WarningLevel::Strict,
            debug_symbols: false,
            lto: true,
            strip: false,
        }
    );
}

#[test]
fn debug_profile_defaults() {
    let m = manifest(ProfilesSection::default());
    assert_eq!(
        m.get_debug_profile(),
        ResolvedProfile {
            opt_level: OptLevel::Off,
            warnings: WarningLevel::Standard,
            debug_symbols: true,
            lto: false,
            strip: false,
        }
    );
}

#[test]
fn profile_overrides_only_given_fields() {
    let release = ProfileSection { opt_level: Some(OptLevel::Size), strip: Some(true), ..empty_section() };
    let debug = ProfileSection { warnings: Some(WarningLevel::Off), lto: Some(true), ..empty_section() };
    let m = manifest(ProfilesSection { debug: Some(debug), release: Some(release) });
    let r = m.get_release_profile();
    assert_eq!(r.opt_level, OptLevel::Size);
    assert_eq!(r.warnings, WarningLevel::Strict);
    assert!(!r.debug_symbols);
    assert!(r.lto);
    assert!(r.strip);
    let d = m.get_debug_profile();
    assert_eq!(d.opt_level, OptLevel::Off);
    assert_eq!(d.warnings, WarningLevel::Off);
    assert!(d.debug_symbols);
    assert!(d.lto);
    assert!(!d.strip);
    assert_eq!(m.profile_for(true), r);
    assert_eq!(m.profile_for(false), d);
}

#[test]
fn empty_profile_section_changes_nothing() {
    let m = manifest(ProfilesSection { debug: Some(empty_section()), release: Some(empty_section()) });
    let plain = manifest(ProfilesSection::default());
    assert_eq!(m.get_release_profile(), plain.get_release_profile());
    assert_eq!(m.get_debug_profile(), plain.get_debug_profile());
}

#[test]
fn profiles_section_is_empty() {
    assert!(ProfilesSection::default().is_empty());
    assert!(!ProfilesSection { debug: Some(empty_section()), release: None }.is_empty());
    assert!(!ProfilesSection { debug: None, release: Some(empty_section()) }.is_empty());
}

#[test]
fn output_name_falls_back_to_project_name() {
    assert_eq!(section("app", None).output_name(), "app");
    assert_eq!(section("app", Some("tool")).output_name(), "tool");
}

#[test]
fn c_standard_names() {
    let all = [
        (CStandard::C89, "c89"),
        (CStandard::C90, "c90"),
        (CStandard::C99, "c99"),
        (CStandard::C11, "c11"),
        (CStandard::C17, "c17"),
        (CStandard::C23, "c23"),
        (CStandard::Gnu99, "gnu99"),
        (CStandard::Gnu11, "gnu11"),
        (CStandard::Gnu17, "gnu17"),
    ];
    for (s, name) in all {
        assert_eq!(s.as_str(), name);
    }
}

#[test]
fn cpp_standard_names() {
    assert_eq!(CppStandard::Cpp98.as_str(), "c++98");
    assert_eq!(CppStandard::Cpp17.as_str(), "c++17");
    assert_eq!(CppStandard::Cpp23.as_str(), "c++23");
}

#[test]
fn defaults_of_enums() {
    assert_eq!(ProjectType::default(), ProjectType::Binary);
    assert_eq!(Language::default(), Language::C);
    assert_eq!(CStandard::default(), CStandard::C17);
    assert_eq!(OptLevel::default(), OptLevel::Off);
    assert_eq!(WarningLevel::default(), WarningLevel::Standard);
    assert_eq!(BuildSystemKind::default(), BuildSystemKind::Auto);
    assert_eq!(CompilerKind::default(), CompilerKind::Auto);
}

#[test]
fn dependency_spec_clones() {
    let d = DependencySpec::Version("1.3".to_string());
    match d.clone() {
        DependencySpec::Version(v) => assert_eq!(v, "1.3"),
        _ => panic!("wrong variant"),
    }
}

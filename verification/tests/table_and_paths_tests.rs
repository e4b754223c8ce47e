use smidr::config::{BuildSystemKind, DependencySpec};
use smidr::dep_table::DependencyTable;
use smidr::paths::{extension, extension_in, file_name, file_stem, join};

fn version(v: &str) -> DependencySpec {
    DependencySpec::Version(v.to_string())
}

fn version_of(s: Option<&DependencySpec>) -> Option<String> {
    match s {
        Some(DependencySpec::Version(v)) => Some(v.clone()),
        _ => None,
    }
}

fn names(t: &DependencyTable) -> Vec<String> {
    t.entries().iter().map(|e| e.0.clone()).collect()
}

#[test]
fn table_keeps_names_sorted() {
    let mut t = DependencyTable::new();
    assert_eq!(t.len(), 0);
    assert!(t.insert("zlib".to_string(), version("1.3")).is_none());
    assert!(t.insert("curl".to_string(), version("8")).is_none());
    assert!(t.insert("openssl".to_string(), version("3")).is_none());
    assert!(t.insert("Zed".to_string(), version("1")).is_none());
    assert_eq!(names(&t), vec!["Zed", "curl", "openssl", "zlib"]);
    assert_eq!(t.len(), 4);
}

#[test]
fn table_insert_replaces_and_returns_old() {
    let mut t = DependencyTable::new();
    t.insert("zlib".to_string(), version("1.2"));
    let old = t.insert("zlib".to_string(), version("1.3"));
    assert_eq!(version_of(old.as_ref()), Some("1.2".to_string()));
    assert_eq!(t.len(), 1);
    assert_eq!(version_of(t.get("zlib")), Some("1.3".to_string()));
}

#[test]
fn table_get_contains_remove() {
    let mut t = DependencyTable::new();
    t.insert("a".to_string(), version("1"));
    t.insert("b".to_string(), version("2"));
    assert!(t.contains_key("a"));
    assert!(!t.contains_key("c"));
    assert!(t.get("c").is_none());
    assert_eq!(version_of(t.remove("a").as_ref()), Some("1".to_string()));
    assert!(t.remove("a").is_none());
    assert!(!t.contains_key("a"));
    assert_eq!(names(&t), vec!["b"]);
}

#[test]
fn table_insert_then_remove_restores() {
    let mut t = DependencyTable::new();
    t.insert("m".to_string(), version("1"));
    t.insert("x".to_string(), version("2"));
    let before = names(&t);
    t.insert("k".to_string(), version("3"));
    t.remove("k");
    assert_eq!(names(&t), before);
}

#[test]
fn table_prefix_names_order() {
    let mut t = DependencyTable::new();
    t.insert("ab".to_string(), version("1"));
    t.insert("a".to_string(), version("1"));
    t.insert("abc".to_string(), version("1"));
    assert_eq!(names(&t), vec!["a", "ab", "abc"]);
}

#[test]
fn table_holds_detailed_specs() {
    let mut t = DependencyTable::new();
    let spec = DependencySpec::Detailed {
        git: Some("https://example.com/x.git".to_string()),
        path: None,
        tag: None,
        branch: None,
        rev: None,
        build_system: BuildSystemKind::Cmake,
        build_commands: vec![],
        extra_includes: vec![],
        libs: vec!["x".to_string()],
    };
    t.insert("x".to_string(), spec);
    match t.get("x") {
        Some(DependencySpec::Detailed { git: Some(g), build_system, .. }) => {
            assert_eq!(g, "https://example.com/x.git");
            assert_eq!(*build_system, BuildSystemKind::Cmake);
        }
        _ => panic!("expected a git spec"),
    }
}

#[test]
fn join_paths() {
    assert_eq!(join("root", "src"), "root/src");
    assert_eq!(join("root/", "src"), "root/src");
    assert_eq!(join("root", "/abs"), "/abs");
    assert_eq!(join("", "src"), "src");
    assert_eq!(join("a", "target/deps"), "a/target/deps");
}

#[test]
fn file_names_stems_extensions() {
    assert_eq!(file_name("a/b/main.c"), "main.c");
    assert_eq!(file_name("main.c"), "main.c");
    assert_eq!(file_stem("src/util.test.c"), "util.test");
    assert_eq!(file_stem("src/Makefile"), "Makefile");
    assert_eq!(file_stem("src/.gitignore"), ".gitignore");
    assert_eq!(extension("src/main.c"), Some("c".to_string()));
    assert_eq!(extension("src/archive.tar.gz"), Some("gz".to_string()));
    assert_eq!(extension("src/.gitignore"), None);
    assert_eq!(extension("src/README"), None);
}

#[test]
fn extension_membership() {
    let exts = vec!["c", "cpp"];
    assert!(extension_in("src/a.c", &exts));
    assert!(extension_in("src/b.cpp", &exts));
    assert!(!extension_in("src/c.h", &exts));
    assert!(!extension_in("src/c", &exts));
    assert!(!extension_in("src/C.C", &exts));
}

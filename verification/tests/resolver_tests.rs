use smidr::config::{BuildSystemKind, DependencySpec};
use smidr::error::BuildError;
use smidr::resolver::{
    cache_key, check_known_paths, checkout_error, checkout_error_in, keep_latest,
    last_progress_line_in, tag_list, VersionParts, clone_at_branch, clone_at_rev, clone_at_tag,
    clone_error, clone_for, copies_entry, dependency_path, git_ref_plan, global_cache_root,
    header_path, known_include_dirs, last_progress_line, latest_stable_tag, latest_tag_or_error,
    list_tags, lossy_text, parse_flags, resolve, resolve_system_lib, system_lib_output,
    temporary_cache_name, try_pkg_config, FetchAction, FetchEvent, FetchStage, GitFetch, GitRef,
    SourceLocation, SystemLibInfo,
};

fn strings(v: &[&str]) -> Vec<String> {
    v.iter().map(|s| s.to_string()).collect()
}

fn spec(git: Option<&str>, path: Option<&str>) -> DependencySpec {
    DependencySpec::Detailed {
        git: git.map(|s| s.to_string()),
        path: path.map(|s| s.to_string()),
        tag: None,
        branch: Some("main".to_string()),
        rev: None,
        build_system: BuildSystemKind::Auto,
        build_commands: vec![],
        extra_includes: vec![],
        libs: vec![],
    }
}

fn dep_err(name: &str, reason: &str) -> BuildError {
    BuildError::Dependency { name: name.to_string(), reason: reason.to_string() }
}

fn some(s: &str) -> Option<String> {
    Some(s.to_string())
}

#[test]
fn known_paths_first_hit_wins() {
    assert_eq!(known_include_dirs(), vec!["/usr/include", "/usr/local/include"]);
    assert_eq!(header_path("/usr/include", "zlib"), "/usr/include/zlib.h");
    let hit = check_known_paths("zlib", &vec![true, true]).unwrap();
    assert_eq!(hit.cflags, strings(&["-I/usr/include"]));
    assert_eq!(hit.libs, strings(&["-lzlib"]));
    let local = check_known_paths("png", &vec![false, true]).unwrap();
    assert_eq!(local.cflags, strings(&["-I/usr/local/include"]));
    assert_eq!(local.libs, strings(&["-lpng"]));
    assert!(check_known_paths("nope", &vec![false, false]).is_none());
}

#[test]
fn pkg_config_output_is_split_on_whitespace() {
    assert_eq!(parse_flags(b"-I/usr/include/libpng16  -DX\n"), strings(&["-I/usr/include/libpng16", "-DX"]));
    assert!(parse_flags(b"\n").is_empty());
    assert_eq!(lossy_text(b"ok\xffk"), "ok\u{fffd}k");
    let info = try_pkg_config(Some(&b"-I/opt/x/include\n"[..]), Some(&b"-L/opt/x/lib -lx\n"[..])).unwrap();
    assert_eq!(info.cflags, strings(&["-I/opt/x/include"]));
    assert_eq!(info.libs, strings(&["-L/opt/x/lib", "-lx"]));
    assert!(try_pkg_config(None, Some(&b"-lx"[..])).is_none());
    assert!(try_pkg_config(Some(&b"-I/x"[..]), None).is_none());
}

#[test]
fn system_library_resolution_order() {
    let known = SystemLibInfo { cflags: strings(&["-I/usr/include"]), libs: strings(&["-lz"]) };
    let pkg = SystemLibInfo { cflags: strings(&["-I/opt"]), libs: strings(&["-lz2"]) };
    let r = resolve_system_lib("z", Some(known), Some(pkg)).unwrap();
    assert_eq!(r.libs, strings(&["-lz"]));
    let pkg2 = SystemLibInfo { cflags: strings(&["-I/opt"]), libs: strings(&["-lz2"]) };
    let r2 = resolve_system_lib("z", None, Some(pkg2)).unwrap();
    assert_eq!(r2.cflags, strings(&["-I/opt"]));
    assert_eq!(
        resolve_system_lib("z", None, None).err(),
        Some(dep_err("z", "not found locally or via pkg-config"))
    );
}

#[test]
fn system_library_output_strips_flag_prefixes() {
    let info = SystemLibInfo {
        cflags: strings(&["-I/usr/include/x", "-DFOO", "-I/y"]),
        libs: strings(&["-L/opt/lib", "-lx", "-pthread", "-lm"]),
    };
    let out = system_lib_output(&info);
    assert_eq!(out.include_dirs, strings(&["/usr/include/x", "/y"]));
    assert!(out.lib_dirs.is_empty());
    assert_eq!(out.libs, strings(&["x", "m"]));
}

#[test]
fn resolve_spec_kinds() {
    assert!(matches!(
        resolve("z", &DependencySpec::Version("1".to_string()), "/w", false),
        Ok(SourceLocation::System)
    ));
    match resolve("loc", &spec(None, Some("vendor/loc")), "/w", true) {
        Ok(SourceLocation::Path(p)) => assert_eq!(p, "/w/vendor/loc"),
        _ => panic!("expected a path"),
    }
    assert_eq!(
        resolve("loc", &spec(None, Some("vendor/loc")), "/w", false).err(),
        Some(dep_err("loc", "path not found: /w/vendor/loc"))
    );
    match resolve("g", &spec(Some("https://x/g.git"), None), "/w", false) {
        Ok(SourceLocation::Git { url, tag, branch, rev }) => {
            assert_eq!(url, "https://x/g.git");
            assert_eq!(tag, None);
            assert_eq!(branch, some("main"));
            assert_eq!(rev, None);
        }
        _ => panic!("expected git"),
    }
    assert_eq!(
        resolve("b", &spec(Some("u"), Some("p")), "/w", true).err(),
        Some(dep_err("b", "both git and path specified - ambiguous"))
    );
    assert_eq!(
        resolve("n", &spec(None, None), "/w", true).err(),
        Some(dep_err("n", "no source specified: specify git or path in Smidr.toml"))
    );
}

#[test]
fn path_to_probe() {
    assert_eq!(dependency_path(&spec(None, Some("../lib")), "/w"), some("/w/../lib"));
    assert_eq!(dependency_path(&spec(None, Some("/abs/lib")), "/w"), some("/abs/lib"));
    assert_eq!(dependency_path(&spec(Some("u"), Some("p")), "/w"), None);
    assert_eq!(dependency_path(&DependencySpec::Version("1".to_string()), "/w"), None);
}

#[test]
fn git_ref_choice() {
    assert!(matches!(git_ref_plan("d", &None, &None, &None), Ok(GitRef::LatestTag)));
    match git_ref_plan("d", &some("v1"), &None, &None) {
        Ok(GitRef::Tag(t)) => assert_eq!(t, "v1"),
        _ => panic!("expected a tag"),
    }
    match git_ref_plan("d", &None, &some("dev"), &None) {
        Ok(GitRef::Branch(b)) => assert_eq!(b, "dev"),
        _ => panic!("expected a branch"),
    }
    match git_ref_plan("d", &None, &None, &some("abc123")) {
        Ok(GitRef::Rev(r)) => assert_eq!(r, "abc123"),
        _ => panic!("expected a rev"),
    }
    let e = Some(dep_err("d", "only one of tag, branch, or rev may be specified"));
    assert_eq!(git_ref_plan("d", &some("v1"), &some("dev"), &None).err(), e);
    assert_eq!(git_ref_plan("d", &some("v1"), &None, &some("r")).err(), e);
    assert_eq!(git_ref_plan("d", &some("v1"), &some("b"), &some("r")).err(), e);
}

#[test]
fn tags_from_ls_remote() {
    let out = b"aaa111\trefs/tags/v1.0.0\nbbb222\trefs/tags/v1.1.0\r\nccc333\trefs/tags/nightly\n";
    assert_eq!(list_tags("u", true, out, b"").unwrap(), strings(&["v1.0.0", "v1.1.0", "nightly"]));
    assert!(list_tags("u", true, b"", b"").unwrap().is_empty());
    assert_eq!(
        list_tags("https://x", false, b"", b"  fatal: repository not found \n").err(),
        Some(dep_err("https://x", "failed to query tags: fatal: repository not found"))
    );
}

#[test]
fn latest_stable_release_tag() {
    assert_eq!(
        latest_stable_tag(strings(&["v1.2.0", "v1.10.0", "2.0.0-rc1", "junk", "v1.9.9"])),
        some("v1.10.0")
    );
    assert_eq!(latest_stable_tag(strings(&["0.9.0", "v1.0.0", "vv0.1.0"])), some("v1.0.0"));
    assert_eq!(latest_stable_tag(strings(&["v1.0.0", "1.0.0"])), some("1.0.0"));
    assert_eq!(latest_stable_tag(strings(&["1.0", "nightly", "v2.0.0-beta.1"])), None);
    assert_eq!(latest_stable_tag(vec![]), None);
}

#[test]
fn latest_tag_or_error_reports_missing_release() {
    assert_eq!(latest_tag_or_error("d", strings(&["v0.1.0", "v0.2.0"])), Ok("v0.2.0".to_string()));
    assert_eq!(
        latest_tag_or_error("d", strings(&["main"])),
        Err(dep_err("d", "no stable release tags found; specify a tag or branch explicitly"))
    );
}

#[test]
fn clone_commands() {
    let t = clone_at_tag("u", "v1", "/d");
    assert_eq!(t.url, "u");
    assert_eq!(t.dest, "/d");
    assert_eq!(t.extra_args, strings(&["--branch", "v1", "--depth", "1"]));
    assert_eq!(t.checkout, None);
    let b = clone_at_branch("u", "dev", "/d");
    assert_eq!(b.extra_args, strings(&["--branch", "dev", "--depth", "1"]));
    let r = clone_at_rev("u", "abc", "/d");
    assert!(r.extra_args.is_empty());
    assert_eq!(r.checkout, some("abc"));
    let latest = clone_for(&GitRef::LatestTag, "u", "v2.0.0", "/d");
    assert_eq!(latest.extra_args, strings(&["--branch", "v2.0.0", "--depth", "1"]));
    let rev = clone_for(&GitRef::Rev("abc".to_string()), "u", "abc", "/d");
    assert_eq!(rev.checkout, some("abc"));
}

#[test]
fn clone_error_messages() {
    assert_eq!(
        clone_error(&GitRef::Tag("v1".to_string()), "u", "v1", "/d", "not found"),
        dep_err("/d", "failed to clone u at tag v1: not found")
    );
    assert_eq!(
        clone_error(&GitRef::Branch("b".to_string()), "u", "b", "/d", "x"),
        dep_err("/d", "failed to clone u at branch b: x")
    );
    assert_eq!(
        clone_error(&GitRef::Rev("r".to_string()), "u", "r", "/d", "x"),
        dep_err("/d", "failed to clone u: x")
    );
    assert_eq!(
        checkout_error("abc", "/d", b"error: pathspec 'abc' did not match\n"),
        dep_err("/d", "failed to checkout revision abc: error: pathspec 'abc' did not match")
    );
}

#[test]
fn last_progress_line_of_git_output() {
    assert_eq!(
        last_progress_line(b"Cloning into 'x'...\nReceiving objects:  10%\rReceiving objects: 100%\r\nfatal: early EOF\n\n"),
        "fatal: early EOF"
    );
    assert_eq!(last_progress_line(b"a\r  b  \r   \r"), "b");
    assert_eq!(last_progress_line(b""), "");
    assert_eq!(last_progress_line(b"\n\r\n"), "");
}

#[test]
fn cache_locations() {
    assert_eq!(global_cache_root(Some("/xdg"), Some("/home/u")), "/xdg/smidr/git");
    assert_eq!(global_cache_root(None, Some("/home/u")), "/home/u/.cache/smidr/git");
    assert_eq!(global_cache_root(None, None), ".smidr-cache/git");
}

#[test]
fn cache_keys_are_file_system_safe() {
    assert_eq!(cache_key("https://github.com/foo/bar", "v1.2.3"), "github_com_foo_bar-v1_2_3");
    assert_eq!(cache_key("git@host:a/b.git", "main"), "git_host_a_b_git-main");
    assert_eq!(cache_key("", ""), "-");
    assert_eq!(temporary_cache_name("k", 4242), "k.tmp-4242");
    assert!(copies_entry("src"));
    assert!(!copies_entry(".git"));
    assert!(copies_entry(".gitignore"));
}

#[test]
fn fetch_pinned_tag_clones_into_cache_then_copies() {
    let mut f = GitFetch::new("dep", "https://h/x.git", &some("v2.1.0"), &None, &None, "/w/target/deps-src/dep", "/c", 77).unwrap();
    assert_eq!(f.ref_name, "v2.1.0");
    match f.step(FetchEvent::Start) {
        Ok(FetchAction::CheckDest(d)) => assert_eq!(d, "/w/target/deps-src/dep"),
        _ => panic!("expected a destination check"),
    }
    match f.step(FetchEvent::DestExists(false)) {
        Ok(FetchAction::CheckCache(c)) => assert_eq!(c, "/c/h_x_git-v2_1_0"),
        _ => panic!("expected a cache check"),
    }
    assert!(f.accepts(&FetchEvent::CacheExists(false)));
    assert!(!f.accepts(&FetchEvent::DestExists(false)));
    match f.step(FetchEvent::CacheExists(false)) {
        Ok(FetchAction::Clone { clone, cache_dir }) => {
            assert_eq!(cache_dir, "/c/h_x_git-v2_1_0");
            assert_eq!(clone.url, "https://h/x.git");
            assert_eq!(clone.dest, "/c/h_x_git-v2_1_0.tmp-77");
            assert_eq!(clone.extra_args, strings(&["--branch", "v2.1.0", "--depth", "1"]));
            assert_eq!(clone.checkout, None);
        }
        _ => panic!("expected a clone"),
    }
    match f.step(FetchEvent::Cloned(Ok(()))) {
        Ok(FetchAction::Copy { from, to }) => {
            assert_eq!(from, "/c/h_x_git-v2_1_0");
            assert_eq!(to, "/w/target/deps-src/dep");
        }
        _ => panic!("expected a copy"),
    }
    match f.step(FetchEvent::Copied(Ok(()))) {
        Ok(FetchAction::Ready(d)) => assert_eq!(d, "/w/target/deps-src/dep"),
        _ => panic!("expected ready"),
    }
}

#[test]
fn fetch_latest_tag_and_cache_hit() {
    let mut f = GitFetch::new("dep", "u", &None, &None, &None, "/d", "/c", 1).unwrap();
    match f.step(FetchEvent::Start) {
        Ok(FetchAction::ListTags(u)) => assert_eq!(u, "u"),
        _ => panic!("expected a tag listing"),
    }
    assert_eq!(f.stage, FetchStage::AwaitTags);
    let out = b"1\trefs/tags/v0.9.0\n2\trefs/tags/v1.0.0\n3\trefs/tags/v1.1.0-rc1\n".to_vec();
    assert!(matches!(
        f.step(FetchEvent::Tags { success: true, stdout: out, stderr: vec![] }),
        Ok(FetchAction::CheckDest(_))
    ));
    assert_eq!(f.ref_name, "v1.0.0");
    assert!(matches!(f.step(FetchEvent::DestExists(false)), Ok(FetchAction::CheckCache(_))));
    match f.step(FetchEvent::CacheExists(true)) {
        Ok(FetchAction::Copy { from, to }) => {
            assert_eq!(from, "/c/u-v1_0_0");
            assert_eq!(to, "/d");
        }
        _ => panic!("expected a copy"),
    }
}

#[test]
fn fetch_existing_checkout_is_used() {
    let mut f = GitFetch::new("dep", "u", &None, &some("main"), &None, "/d", "/c", 1).unwrap();
    let _ = f.step(FetchEvent::Start);
    match f.step(FetchEvent::DestExists(true)) {
        Ok(FetchAction::Ready(d)) => assert_eq!(d, "/d"),
        _ => panic!("expected ready"),
    }
}

#[test]
fn fetch_rev_clones_in_full_then_checks_out() {
    let mut f = GitFetch::new("dep", "u", &None, &None, &some("abc"), "/d", "/c", 5).unwrap();
    let _ = f.step(FetchEvent::Start);
    let _ = f.step(FetchEvent::DestExists(false));
    match f.step(FetchEvent::CacheExists(false)) {
        Ok(FetchAction::Clone { clone, .. }) => {
            assert!(clone.extra_args.is_empty());
            assert_eq!(clone.checkout, some("abc"));
            assert_eq!(clone.dest, "/c/u-abc.tmp-5");
        }
        _ => panic!("expected a clone"),
    }
}

#[test]
fn fetch_errors() {
    assert_eq!(
        GitFetch::new("dep", "u", &some("t"), &some("b"), &None, "/d", "/c", 1).err().map(|_| ()),
        Some(())
    );
    let mut f = GitFetch::new("dep", "u", &None, &None, &None, "/d", "/c", 1).unwrap();
    let _ = f.step(FetchEvent::Start);
    assert_eq!(
        f.step(FetchEvent::Tags { success: true, stdout: b"1\trefs/tags/nightly\n".to_vec(), stderr: vec![] }).err(),
        Some(dep_err("dep", "no stable release tags found; specify a tag or branch explicitly"))
    );
    let mut g = GitFetch::new("dep", "u", &None, &None, &None, "/d", "/c", 1).unwrap();
    let _ = g.step(FetchEvent::Start);
    assert_eq!(
        g.step(FetchEvent::Tags { success: false, stdout: vec![], stderr: b"fatal: no\n".to_vec() }).err(),
        Some(dep_err("u", "failed to query tags: fatal: no"))
    );
    let mut h = GitFetch::new("dep", "u", &some("v1"), &None, &None, "/d", "/c", 1).unwrap();
    let _ = h.step(FetchEvent::Start);
    let _ = h.step(FetchEvent::DestExists(false));
    let _ = h.step(FetchEvent::CacheExists(false));
    let e = dep_err("/c/u-v1.tmp-1", "failed to clone u at tag v1: boom");
    assert_eq!(h.step(FetchEvent::Cloned(Err(e.clone()))).err(), Some(e));
}

#[test]
fn same_url_and_ref_share_a_cache_entry() {
    let mut a = GitFetch::new("one", "https://h/r.git", &some("v1"), &None, &None, "/p1/d", "/c", 1).unwrap();
    let mut b = GitFetch::new("two", "https://h/r.git", &some("v1"), &None, &None, "/p2/e", "/c", 2).unwrap();
    let _ = a.step(FetchEvent::Start);
    let _ = b.step(FetchEvent::Start);
    let ca = match a.step(FetchEvent::DestExists(false)) {
        Ok(FetchAction::CheckCache(c)) => c,
        _ => panic!("expected a cache check"),
    };
    let cb = match b.step(FetchEvent::DestExists(false)) {
        Ok(FetchAction::CheckCache(c)) => c,
        _ => panic!("expected a cache check"),
    };
    assert_eq!(ca, cb);
}

fn parts(major: u64, minor: u64, patch: u64, pre: &str) -> Option<VersionParts> {
    Some(VersionParts { major, minor, patch, pre: pre.to_string(), build: String::new() })
}

#[test]
fn latest_search_steps() {
    let c = "v2.0.0".to_string();
    assert_eq!(keep_latest(None, &c, &parts(2, 0, 0, ""), 0), some("v2.0.0"));
    assert_eq!(keep_latest(some("v1.0.0"), &c, &parts(2, 0, 0, ""), -1), some("v2.0.0"));
    assert_eq!(keep_latest(some("v3.0.0"), &c, &parts(2, 0, 0, ""), 1), some("v3.0.0"));
    assert_eq!(keep_latest(some("2.0.0"), &c, &parts(2, 0, 0, ""), 0), some("v2.0.0"));
    assert_eq!(keep_latest(some("v1.0.0"), &c, &parts(2, 0, 0, "rc.1"), -1), some("v1.0.0"));
    assert_eq!(keep_latest(None, &c, &None, 0), None);
}

#[test]
fn text_level_helpers() {
    assert_eq!(tag_list("a\trefs/tags/v1\nb\trefs/tags/v2"), strings(&["v1", "v2"]));
    assert!(tag_list("").is_empty());
    assert_eq!(last_progress_line_in("x\r y \n\n"), "y");
    assert_eq!(
        checkout_error_in("r1", "/d", "  bad  "),
        dep_err("/d", "failed to checkout revision r1: bad")
    );
}

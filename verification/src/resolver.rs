//! Where a dependency's source lives, and the decisions around fetching it:
//! validating a dependency's spec, recognising system libraries, picking
//! the git ref to clone (the latest stable release tag when none is
//! pinned), and naming the shared clone cache.
//!
//! Looking at the disk, running `pkg-config` and `git` is left to the
//! caller, which hands the results to the functions here.

use vstd::prelude::*;
use crate::config::DependencySpec;
use crate::error::BuildError;
use crate::paths::{join, join_path};
use crate::text::{
    clone_opt_string, str_concat, is_ascii_alnum, lines, next_line, push_char, push_str,
    split_whitespace, split_ws, string_from, string_of_range, to_chars, trim, trim_bounds,
};
use crate::toolchain::{push_string, string_views, BuildOutput, BuildOutputView};

verus! {

broadcast use vstd::string::group_string_axioms;

/// Where a dependency's source was found.
pub enum SourceLocation {
    Path(String),
    Git { url: String, tag: Option<String>, branch: Option<String>, rev: Option<String> },
    /// A system library, found by a local header search or `pkg-config`.
    System,
}

/// A system library: its compile and link flags.
pub struct SystemLibInfo {
    pub cflags: Vec<String>,
    pub libs: Vec<String>,
}

// ---------------------------------------------------------------------
// System libraries
// ---------------------------------------------------------------------

/// The include directories searched, in order, for `<name>.h`.
pub fn known_include_dirs() -> (r: Vec<&'static str>)
    ensures
        r@.len() == 2,
        r@[0]@ == "/usr/include"@,
        r@[1]@ == "/usr/local/include"@,
{
    let mut v: Vec<&'static str> = Vec::new();
    v.push("/usr/include");
    v.push("/usr/local/include");
    v
}

/// The header whose presence in `dir` means the library `name` is there.
pub fn header_path(dir: &str, name: &str) -> (r: String)
    ensures
        r@ == join_path(dir@, name@ + ".h"@),
{
    let f = str_concat(name, ".h");
    join(dir, f.as_str())
}

/// The flags for a library found as a header in `dir`.
pub open spec fn known_info(dir: Seq<char>, name: Seq<char>) -> (Seq<Seq<char>>, Seq<Seq<char>>) {
    (seq!["-I"@ + dir], seq!["-l"@ + name])
}

pub open spec fn info_view(i: SystemLibInfo) -> (Seq<Seq<char>>, Seq<Seq<char>>) {
    (string_views(i.cflags@), string_views(i.libs@))
}

/// Look for `name` in the known include directories: `header_exists[i]`
/// tells whether `<name>.h` exists in the `i`-th of
/// [`known_include_dirs`]; the first hit gives `-I<dir>` and `-l<name>`.
pub fn check_known_paths(name: &str, header_exists: &Vec<bool>) -> (r: Option<SystemLibInfo>)
    requires
        header_exists@.len() == 2,
    ensures
        header_exists@[0] ==> (r matches Some(i) && info_view(i) == known_info(
            "/usr/include"@,
            name@,
        )),
        !header_exists@[0] && header_exists@[1] ==> (r matches Some(i) && info_view(i)
            == known_info("/usr/local/include"@, name@)),
        !header_exists@[0] && !header_exists@[1] ==> r is None,
{
    let dirs = known_include_dirs();
    let mut i: usize = 0;
    while i < 2
        invariant
            i <= 2,
            dirs@.len() == 2,
            dirs@[0]@ == "/usr/include"@,
            dirs@[1]@ == "/usr/local/include"@,
            header_exists@.len() == 2,
            forall|j: int| 0 <= j < i ==> !header_exists@[j],
        decreases 2 - i,
    {
        if header_exists[i] {
            let mut cflags: Vec<String> = Vec::new();
            push_string(&mut cflags, str_concat("-I", dirs[i]));
            let mut libs: Vec<String> = Vec::new();
            push_string(&mut libs, str_concat("-l", name));
            let info = SystemLibInfo { cflags, libs };
            assert(info_view(info) == known_info(dirs@[i as int]@, name@));
            return Some(info);
        }
        i = i + 1;
    }
    None
}

/// What `String::from_utf8_lossy` makes of a byte string.
pub uninterp spec fn utf8_lossy(bytes: Seq<u8>) -> Seq<char>;

/// `String::from_utf8_lossy`: the text the bytes encode, invalid UTF-8
/// sequences replaced by U+FFFD. Stated: the result is a function of the
/// bytes, and is their plain decoding when they are valid UTF-8.
#[verifier::external_body]
fn from_utf8_lossy(bytes: &[u8]) -> (r: String)
    ensures
        r@ == utf8_lossy(bytes@),
        vstd::utf8::valid_utf8(bytes@) ==> r@ == vstd::utf8::decode_utf8(bytes@),
{
    String::from_utf8_lossy(bytes).into_owned()
}

/// The text of a tool's output.
pub fn lossy_text(bytes: &[u8]) -> (r: String)
    ensures
        r@ == utf8_lossy(bytes@),
{
    from_utf8_lossy(bytes)
}

/// The whitespace-separated flags in a tool's output.
pub fn parse_flags(bytes: &[u8]) -> (r: Vec<String>)
    ensures
        string_views(r@) == split_ws(utf8_lossy(bytes@)),
{
    let text = from_utf8_lossy(bytes);
    split_whitespace(text.as_str())
}

/// The `pkg-config` answer for a library: the outputs of `--cflags` and
/// `--libs`, each `None` when that call could not run or failed.
pub fn try_pkg_config(cflags_out: Option<&[u8]>, libs_out: Option<&[u8]>) -> (r: Option<
    SystemLibInfo,
>)
    ensures
        match (cflags_out, libs_out) {
            (Some(c), Some(l)) => r matches Some(i) && info_view(i) == (
                split_ws(utf8_lossy(c@)),
                split_ws(utf8_lossy(l@)),
            ),
            _ => r is None,
        },
{
    match (cflags_out, libs_out) {
        (Some(c), Some(l)) => Some(SystemLibInfo { cflags: parse_flags(c), libs: parse_flags(l) }),
        _ => None,
    }
}

pub open spec fn not_found_reason() -> Seq<char> {
    "not found locally or via pkg-config"@
}

/// A system library: the local header search wins, then `pkg-config`;
/// when neither found it, the dependency fails.
pub fn resolve_system_lib(
    name: &str,
    known: Option<SystemLibInfo>,
    pkg: Option<SystemLibInfo>,
) -> (r: Result<SystemLibInfo, BuildError>)
    ensures
        known is Some ==> r is Ok && info_view(r->Ok_0) == info_view(known->Some_0),
        known is None && pkg is Some ==> r is Ok && info_view(r->Ok_0) == info_view(pkg->Some_0),
        known is None && pkg is None ==> r is Err && dependency_error(
            r->Err_0,
            name@,
            not_found_reason(),
        ),
{
    if let Some(found) = known {
        return Ok(found);
    }
    if let Some(p) = pkg {
        return Ok(p);
    }
    Err(
        BuildError::Dependency {
            name: string_from(name),
            reason: string_from("not found locally or via pkg-config"),
        },
    )
}

/// Keep the flags that start with `prefix`, without it.
pub open spec fn strip_all(flags: Seq<Seq<char>>, prefix: Seq<char>) -> Seq<Seq<char>>
    decreases flags.len(),
{
    if flags.len() == 0 {
        seq![]
    } else {
        let rest = strip_all(flags.drop_last(), prefix);
        match crate::text::strip_prefix(flags.last(), prefix) {
            Some(t) => rest.push(t),
            None => rest,
        }
    }
}

fn strip_each(flags: &Vec<String>, prefix: &str) -> (r: Vec<String>)
    ensures
        string_views(r@) == strip_all(string_views(flags@), prefix@),
{
    let mut out: Vec<String> = Vec::new();
    let mut i: usize = 0;
    while i < flags.len()
        invariant
            i <= flags@.len(),
            string_views(out@) == strip_all(string_views(flags@.take(i as int)), prefix@),
        decreases flags.len() - i,
    {
        assert(string_views(flags@.take(i + 1)).drop_last() =~= string_views(flags@.take(i as int)));
        match crate::text::strip_prefix_of(flags[i].as_str(), prefix) {
            Some(t) => {
                push_string(&mut out, t);
            },
            None => {},
        }
        i = i + 1;
    }
    assert(flags@.take(i as int) =~= flags@);
    out
}

/// What a system library contributes to a build: the directories of its
/// `-I` flags and the names of its `-l` flags.
pub open spec fn system_output(info: (Seq<Seq<char>>, Seq<Seq<char>>)) -> BuildOutputView {
    BuildOutputView {
        include_dirs: strip_all(info.0, "-I"@),
        lib_dirs: seq![],
        libs: strip_all(info.1, "-l"@),
    }
}

/// The build inputs a system library provides.
pub fn system_lib_output(info: &SystemLibInfo) -> (r: BuildOutput)
    ensures
        r@ == system_output(info_view(*info)),
{
    let r = BuildOutput {
        include_dirs: strip_each(&info.cflags, "-I"),
        lib_dirs: Vec::new(),
        libs: strip_each(&info.libs, "-l"),
    };
    assert(r@ =~= system_output(info_view(*info)));
    r
}

// ---------------------------------------------------------------------
// Resolving a dependency's source
// ---------------------------------------------------------------------

/// The path whose existence decides a `path` dependency: `path` under the
/// project root, for a spec that gives a `path` and no `git`.
pub open spec fn probe_path(spec: DependencySpec, root: Seq<char>) -> Option<Seq<char>> {
    match spec {
        DependencySpec::Detailed { git: None, path: Some(p), .. } => Some(join_path(root, p@)),
        _ => None,
    }
}

/// The path [`resolve`] needs checked on disk, if any.
pub fn dependency_path(spec: &DependencySpec, project_root: &str) -> (r: Option<String>)
    ensures
        match r {
            Some(p) => probe_path(*spec, project_root@) == Some(p@),
            None => probe_path(*spec, project_root@) is None,
        },
{
    match spec {
        DependencySpec::Detailed { git: None, path: Some(p), .. } => Some(join(project_root, p.as_str())),
        _ => None,
    }
}

pub open spec fn dependency_error(e: BuildError, name: Seq<char>, reason: Seq<char>) -> bool {
    e matches BuildError::Dependency { name: n, reason: r } && n@ == name && r@ == reason
}

/// Resolve a dependency's spec into where its source is. A version string
/// is a system library; otherwise exactly one of `git` and `path` must be
/// set, and a `path` must exist (`path_exists` tells whether
/// [`dependency_path`] exists).
pub fn resolve(name: &str, spec: &DependencySpec, project_root: &str, path_exists: bool) -> (r:
    Result<SourceLocation, BuildError>)
    ensures
        match *spec {
            DependencySpec::Version(_) => r matches Ok(SourceLocation::System),
            DependencySpec::Detailed { git, path, tag, branch, rev, .. } => match (git, path) {
                (None, None) => r is Err && dependency_error(
                    r->Err_0,
                    name@,
                    "no source specified: specify git or path in Smidr.toml"@,
                ),
                (Some(_), Some(_)) => r is Err && dependency_error(
                    r->Err_0,
                    name@,
                    "both git and path specified - ambiguous"@,
                ),
                (None, Some(p)) => if path_exists {
                    r matches Ok(SourceLocation::Path(full)) && full@ == join_path(project_root@, p@)
                } else {
                    r is Err && dependency_error(
                        r->Err_0,
                        name@,
                        "path not found: "@ + join_path(project_root@, p@),
                    )
                },
                (Some(u), None) => r matches Ok(SourceLocation::Git { url, tag: t, branch: b, rev: v })
                    && url@ == u@ && t == tag && b == branch && v == rev,
            },
        },
{
    match spec {
        DependencySpec::Version(_) => Ok(SourceLocation::System),
        DependencySpec::Detailed { git, path, tag, branch, rev, .. } => match (git, path) {
            (None, None) => Err(
                BuildError::Dependency {
                    name: string_from(name),
                    reason: string_from("no source specified: specify git or path in Smidr.toml"),
                },
            ),
            (Some(_), Some(_)) => Err(
                BuildError::Dependency {
                    name: string_from(name),
                    reason: string_from("both git and path specified - ambiguous"),
                },
            ),
            (None, Some(local_path)) => {
                let full = join(project_root, local_path.as_str());
                if !path_exists {
                    return Err(
                        BuildError::Dependency {
                            name: string_from(name),
                            reason: str_concat("path not found: ", full.as_str()),
                        },
                    );
                }
                Ok(SourceLocation::Path(full))
            },
            (Some(git_url), None) => Ok(
                SourceLocation::Git {
                    url: git_url.clone(),
                    tag: clone_opt_string(tag),
                    branch: clone_opt_string(branch),
                    rev: clone_opt_string(rev),
                },
            ),
        },
    }
}

// ---------------------------------------------------------------------
// Git dependencies
// ---------------------------------------------------------------------

/// Which ref of a git dependency gets cloned.
#[derive(Debug)]
pub enum GitRef {
    Branch(String),
    Tag(String),
    Rev(String),
    /// No ref pinned: the latest stable release tag.
    LatestTag,
}

/// At most one of `tag`, `branch` and `rev` may be given; the one given
/// is what gets cloned, and with none the latest stable tag is.
pub fn git_ref_plan(
    name: &str,
    tag: &Option<String>,
    branch: &Option<String>,
    rev: &Option<String>,
) -> (r: Result<GitRef, BuildError>)
    ensures
        (tag is Some) as int + (branch is Some) as int + (rev is Some) as int > 1 ==> (r is Err
            && dependency_error(
            r->Err_0,
            name@,
            "only one of tag, branch, or rev may be specified"@,
        )),
        (tag is Some) as int + (branch is Some) as int + (rev is Some) as int <= 1 ==> match (
            branch,
            tag,
            rev,
        ) {
            (Some(b), _, _) => r matches Ok(GitRef::Branch(x)) && x@ == b@,
            (None, Some(t), _) => r matches Ok(GitRef::Tag(x)) && x@ == t@,
            (None, None, Some(v)) => r matches Ok(GitRef::Rev(x)) && x@ == v@,
            (None, None, None) => r matches Ok(GitRef::LatestTag),
        },
{
    let mut count: usize = 0;
    if branch.is_some() {
        count = count + 1;
    }
    if tag.is_some() {
        count = count + 1;
    }
    if rev.is_some() {
        count = count + 1;
    }
    if count > 1 {
        return Err(
            BuildError::Dependency {
                name: string_from(name),
                reason: string_from("only one of tag, branch, or rev may be specified"),
            },
        );
    }
    match (branch, tag, rev) {
        (Some(b), _, _) => Ok(GitRef::Branch(b.clone())),
        (None, Some(t), _) => Ok(GitRef::Tag(t.clone())),
        (None, None, Some(v)) => Ok(GitRef::Rev(v.clone())),
        (None, None, None) => Ok(GitRef::LatestTag),
    }
}

/// The last `/`-separated segment of each line: the tag names in the
/// output of `git ls-remote --tags --refs`.
pub open spec fn tag_names(ls: Seq<Seq<char>>) -> Seq<Seq<char>> {
    Seq::new(ls.len(), |i: int| crate::paths::file_name_of(ls[i]))
}

/// The tag names in the text `git ls-remote --tags --refs` prints: the
/// last `/`-separated segment of each line.
#[verifier::loop_isolation(false)]
pub fn tag_list(text: &str) -> (r: Vec<String>)
    ensures
        string_views(r@) == tag_names(lines(text@)),
{
    let v = to_chars(text);
    let n = v.len();
    let mut out: Vec<String> = Vec::new();
    let mut pos: usize = 0;
    assert(v@.subrange(0, n as int) =~= text@);
    while pos < n
        invariant
            pos <= n == v@.len(),
            v@ == text@,
            tag_names(lines(text@)) == string_views(out@) + tag_names(
                lines(v@.subrange(pos as int, n as int)),
            ),
        decreases n - pos,
    {
        let (a, b, next) = next_line(&v, pos, n);
        let ghost ls = lines(v@.subrange(pos as int, n as int));
        let ghost rest = lines(v@.subrange(next as int, n as int));
        let line = string_of_range(&v, a, b);
        let t = crate::paths::file_name(line.as_str());
        let ghost before = string_views(out@);
        push_string(&mut out, t);
        assert(tag_names(ls) =~= seq![t@] + tag_names(rest));
        assert(string_views(out@) + tag_names(rest) =~= before + tag_names(ls));
        pos = next;
    }
    assert(v@.subrange(n as int, n as int) =~= Seq::<char>::empty());
    assert(string_views(out@) + tag_names(Seq::<Seq<char>>::empty()) =~= string_views(out@));
    out
}

/// The tags listed by `git ls-remote --tags --refs <url>`, given whether
/// it succeeded and what it printed; a failure reports its stderr.
pub fn list_tags(url: &str, success: bool, stdout: &[u8], stderr: &[u8]) -> (r: Result<
    Vec<String>,
    BuildError,
>)
    ensures
        !success ==> r is Err && dependency_error(
            r->Err_0,
            url@,
            "failed to query tags: "@ + trim(utf8_lossy(stderr@)),
        ),
        success ==> (r matches Ok(v) && string_views(v@) == tag_names(lines(utf8_lossy(stdout@)))),
{
    if !success {
        let err = from_utf8_lossy(stderr);
        let mut reason = string_from("failed to query tags: ");
        let t = crate::text::trimmed(err.as_str());
        push_str(&mut reason, t.as_str());
        return Err(BuildError::Dependency { name: string_from(url), reason });
    }
    let text = from_utf8_lossy(stdout);
    Ok(tag_list(text.as_str()))
}

/// A parsed semantic version, as plain values: major, minor, patch, the
/// pre-release and the build metadata text.
pub struct VersionParts {
    pub major: u64,
    pub minor: u64,
    pub patch: u64,
    pub pre: String,
    pub build: String,
}

/// What `semver::Version::parse` makes of a text: its parts, or `None`
/// when the text is no semantic version.
pub uninterp spec fn semver_parse(text: Seq<char>) -> Option<(u64, u64, u64, Seq<char>, Seq<char>)>;

/// The order `semver::Version` defines (`Ord`) between the versions two
/// texts parse to: -1, 0 or 1.
pub uninterp spec fn semver_order(a: Seq<char>, b: Seq<char>) -> i8;

pub open spec fn parts_view(p: Option<VersionParts>) -> Option<(u64, u64, u64, Seq<char>, Seq<char>)> {
    match p {
        Some(v) => Some((v.major, v.minor, v.patch, v.pre@, v.build@)),
        None => None,
    }
}

/// `semver::Version::parse`, its result taken apart into plain values
/// (`Prerelease::as_str`, `BuildMetadata::as_str`). Stated: the result is
/// `semver_parse` of the text.
#[verifier::external_body]
fn parse_version(text: &str) -> (r: Option<VersionParts>)
    ensures
        parts_view(r) == semver_parse(text@),
{
    match semver::Version::parse(text) {
        Ok(v) => Some(
            VersionParts {
                major: v.major,
                minor: v.minor,
                patch: v.patch,
                pre: v.pre.as_str().to_string(),
                build: v.build.as_str().to_string(),
            },
        ),
        Err(_) => None,
    }
}

/// `Ord::cmp` of `semver::Version` on the versions `a` and `b` parse to.
/// Stated: the result is `semver_order` of the two texts, one of -1, 0, 1.
#[verifier::external_body]
fn compare_versions(a: &str, b: &str) -> (r: i8)
    requires
        semver_parse(a@) is Some,
        semver_parse(b@) is Some,
    ensures
        r == semver_order(a@, b@),
        -1 <= r <= 1,
{
    let x = semver::Version::parse(a).unwrap();
    let y = semver::Version::parse(b).unwrap();
    match x.cmp(&y) {
        std::cmp::Ordering::Less => -1,
        std::cmp::Ordering::Equal => 0,
        std::cmp::Ordering::Greater => 1,
    }
}

/// `tag.trim_start_matches('v')`.
pub open spec fn strip_v(tag: Seq<char>) -> Seq<char>
    decreases tag.len(),
{
    if tag.len() > 0 && tag[0] == 'v' {
        strip_v(tag.drop_first())
    } else {
        tag
    }
}

/// A release tag: it parses as a semantic version (after leading `v`s)
/// with no pre-release part.
pub open spec fn is_stable_tag(tag: Seq<char>) -> bool {
    match semver_parse(strip_v(tag)) {
        Some(p) => p.3.len() == 0,
        None => false,
    }
}

/// The maximum by version of the release tags among `tags`, folding from
/// `best`; among equal versions the later tag wins (`Iterator::max_by`).
pub open spec fn latest_from(tags: Seq<Seq<char>>, best: Option<Seq<char>>) -> Option<Seq<char>>
    decreases tags.len(),
{
    if tags.len() == 0 {
        best
    } else {
        let t = tags[0];
        let next = if is_stable_tag(t) {
            match best {
                Some(b) => if semver_order(strip_v(b), strip_v(t)) == 1 {
                    Some(b)
                } else {
                    Some(t)
                },
                None => Some(t),
            }
        } else {
            best
        };
        latest_from(tags.drop_first(), next)
    }
}

/// The latest stable release among `tags`.
pub open spec fn latest_stable(tags: Seq<Seq<char>>) -> Option<Seq<char>> {
    latest_from(tags, None)
}

fn strip_v_of(tag: &str) -> (r: String)
    ensures
        r@ == strip_v(tag@),
{
    let v = to_chars(tag);
    let mut i: usize = 0;
    assert(v@.skip(0) =~= v@);
    while i < v.len() && v[i] == 'v'
        invariant
            i <= v@.len(),
            strip_v(tag@) == strip_v(v@.skip(i as int)),
            v@ == tag@,
        decreases v.len() - i,
    {
        assert(v@.skip(i as int).drop_first() =~= v@.skip(i + 1));
        i = i + 1;
    }
    assert(v@.skip(i as int) =~= v@.subrange(i as int, v@.len() as int));
    string_of_range(&v, i, v.len())
}

pub open spec fn opt_view(o: Option<String>) -> Option<Seq<char>> {
    match o {
        Some(s) => Some(s@),
        None => None,
    }
}

/// One step of the search for the latest release: `candidate`, whose
/// version text parsed to `parsed`, replaces `best` when it is a stable
/// release (no pre-release part) and `best` is not newer; `order` is the
/// comparison of `best` with `candidate` (1: `best` is newer), looked at
/// only when both are there. Ties go to the later tag.
pub open spec fn latest_step(
    best: Option<Seq<char>>,
    candidate: Seq<char>,
    parsed: Option<(u64, u64, u64, Seq<char>, Seq<char>)>,
    order: i8,
) -> Option<Seq<char>> {
    if parsed is Some && parsed->Some_0.3.len() == 0 {
        match best {
            Some(b) => if order == 1 {
                Some(b)
            } else {
                Some(candidate)
            },
            None => Some(candidate),
        }
    } else {
        best
    }
}

/// One step of picking the latest release tag (see [`latest_step`]).
pub fn keep_latest(best: Option<String>, candidate: &String, parsed: &Option<VersionParts>, order: i8) -> (r:
    Option<String>)
    ensures
        opt_view(r) == latest_step(opt_view(best), candidate@, parts_view(*parsed), order),
{
    match parsed {
        Some(p) => {
            if p.pre.as_str().is_empty() {
                match best {
                    Some(b) => if order == 1 {
                        Some(b)
                    } else {
                        Some(candidate.clone())
                    },
                    None => Some(candidate.clone()),
                }
            } else {
                best
            }
        },
        None => best,
    }
}

/// The latest stable release tag (by semantic version, leading `v`s
/// ignored, pre-releases skipped), if there is one.
pub fn latest_stable_tag(tags: Vec<String>) -> (r: Option<String>)
    ensures
        match r {
            Some(t) => latest_stable(string_views(tags@)) == Some(t@),
            None => latest_stable(string_views(tags@)) is None,
        },
{
    let ghost all = string_views(tags@);
    let mut best: Option<String> = None;
    let mut i: usize = 0;
    assert(all.skip(0) =~= all);
    while i < tags.len()
        invariant
            i <= tags@.len(),
            all == string_views(tags@),
            latest_stable(all) == latest_from(all.skip(i as int), opt_view(best)),
            best matches Some(b) ==> is_stable_tag(b@),
        decreases tags.len() - i,
    {
        assert(all.skip(i as int).drop_first() =~= all.skip(i + 1));
        assert(all.skip(i as int)[0] == tags@[i as int]@);
        let clean = strip_v_of(tags[i].as_str());
        let parsed = parse_version(clean.as_str());
        let mut order: i8 = 0;
        if let Some(p) = &parsed {
            if p.pre.as_str().is_empty() {
                if let Some(b) = &best {
                    let bc = strip_v_of(b.as_str());
                    order = compare_versions(bc.as_str(), clean.as_str());
                }
            }
        }
        best = keep_latest(best, &tags[i], &parsed, order);
        i = i + 1;
    }
    assert(all.skip(i as int) =~= Seq::<Seq<char>>::empty());
    best
}

/// The reason given when no release tag was found for a git dependency
/// that pins no ref.
pub open spec fn no_stable_tag_reason() -> Seq<char> {
    "no stable release tags found; specify a tag or branch explicitly"@
}

/// The ref to clone for a git dependency that pins none: the latest
/// stable tag, or an error naming the dependency.
pub fn latest_tag_or_error(name: &str, tags: Vec<String>) -> (r: Result<String, BuildError>)
    ensures
        match latest_stable(string_views(tags@)) {
            Some(t) => r matches Ok(x) && x@ == t,
            None => r is Err && dependency_error(r->Err_0, name@, no_stable_tag_reason()),
        },
{
    match latest_stable_tag(tags) {
        Some(t) => Ok(t),
        None => Err(
            BuildError::Dependency {
                name: string_from(name),
                reason: string_from(
                    "no stable release tags found; specify a tag or branch explicitly",
                ),
            },
        ),
    }
}

/// A `git clone` to run: extra arguments before the URL and destination,
/// and a revision to check out afterwards, if any.
pub struct GitClone {
    pub url: String,
    pub dest: String,
    pub extra_args: Vec<String>,
    pub checkout: Option<String>,
}

/// Clone `url` at tag `tag` into `dest`: a shallow clone of that tag.
pub fn clone_at_tag(url: &str, tag: &str, dest: &str) -> (r: GitClone)
    ensures
        r.url@ == url@,
        r.dest@ == dest@,
        string_views(r.extra_args@) == seq!["--branch"@, tag@, "--depth"@, "1"@],
        r.checkout is None,
{
    let mut a: Vec<String> = Vec::new();
    push_string(&mut a, string_from("--branch"));
    push_string(&mut a, string_from(tag));
    push_string(&mut a, string_from("--depth"));
    push_string(&mut a, string_from("1"));
    GitClone { url: string_from(url), dest: string_from(dest), extra_args: a, checkout: None }
}

/// Clone `url` at branch `branch` into `dest`: a shallow clone of it.
pub fn clone_at_branch(url: &str, branch: &str, dest: &str) -> (r: GitClone)
    ensures
        r.url@ == url@,
        r.dest@ == dest@,
        string_views(r.extra_args@) == seq!["--branch"@, branch@, "--depth"@, "1"@],
        r.checkout is None,
{
    let mut a: Vec<String> = Vec::new();
    push_string(&mut a, string_from("--branch"));
    push_string(&mut a, string_from(branch));
    push_string(&mut a, string_from("--depth"));
    push_string(&mut a, string_from("1"));
    GitClone { url: string_from(url), dest: string_from(dest), extra_args: a, checkout: None }
}

/// Clone `url` into `dest` in full (an arbitrary commit may not be
/// reachable from a shallow clone), then check out `rev`.
pub fn clone_at_rev(url: &str, rev: &str, dest: &str) -> (r: GitClone)
    ensures
        r.url@ == url@,
        r.dest@ == dest@,
        r.extra_args@.len() == 0,
        r.checkout matches Some(c) && c@ == rev@,
{
    GitClone {
        url: string_from(url),
        dest: string_from(dest),
        extra_args: Vec::new(),
        checkout: Some(string_from(rev)),
    }
}

/// The clone a git dependency needs, cloning `ref_name` (the resolved ref
/// of `plan`) into `dest`.
pub fn clone_for(plan: &GitRef, url: &str, ref_name: &str, dest: &str) -> (r: GitClone)
    ensures
        r.url@ == url@,
        r.dest@ == dest@,
        match plan {
            GitRef::Rev(_) => r.extra_args@.len() == 0 && (r.checkout matches Some(c) && c@
                == ref_name@),
            GitRef::Branch(_) => string_views(r.extra_args@) == seq![
                "--branch"@,
                ref_name@,
                "--depth"@,
                "1"@,
            ] && r.checkout is None,
            _ => string_views(r.extra_args@) == seq!["--branch"@, ref_name@, "--depth"@, "1"@]
                && r.checkout is None,
        },
{
    match plan {
        GitRef::Branch(_) => clone_at_branch(url, ref_name, dest),
        GitRef::Rev(_) => clone_at_rev(url, ref_name, dest),
        _ => clone_at_tag(url, ref_name, dest),
    }
}

/// The error for a failed clone: `reason` is git's last progress line.
pub fn clone_error(plan: &GitRef, url: &str, ref_name: &str, dest: &str, reason: &str) -> (r:
    BuildError)
    ensures
        dependency_error(
            r,
            dest@,
            match plan {
                GitRef::Branch(_) => "failed to clone "@ + url@ + " at branch "@ + ref_name@
                    + ": "@ + reason@,
                GitRef::Rev(_) => "failed to clone "@ + url@ + ": "@ + reason@,
                _ => "failed to clone "@ + url@ + " at tag "@ + ref_name@ + ": "@ + reason@,
            },
        ),
{
    let mut m = string_from("failed to clone ");
    push_str(&mut m, url);
    match plan {
        GitRef::Branch(_) => {
            push_str(&mut m, " at branch ");
            push_str(&mut m, ref_name);
        },
        GitRef::Rev(_) => {},
        _ => {
            push_str(&mut m, " at tag ");
            push_str(&mut m, ref_name);
        },
    }
    push_str(&mut m, ": ");
    push_str(&mut m, reason);
    let ghost expect = match plan {
        GitRef::Branch(_) => "failed to clone "@ + url@ + " at branch "@ + ref_name@ + ": "@
            + reason@,
        GitRef::Rev(_) => "failed to clone "@ + url@ + ": "@ + reason@,
        _ => "failed to clone "@ + url@ + " at tag "@ + ref_name@ + ": "@ + reason@,
    };
    assert(m@ =~= expect);
    BuildError::Dependency { name: string_from(dest), reason: m }
}

/// The error for a failed `git checkout <rev>` after a full clone, which
/// wrote `text` to stderr.
pub fn checkout_error_in(rev: &str, dest: &str, text: &str) -> (r: BuildError)
    ensures
        dependency_error(r, dest@, "failed to checkout revision "@ + rev@ + ": "@ + trim(text@)),
{
    let mut m = string_from("failed to checkout revision ");
    push_str(&mut m, rev);
    push_str(&mut m, ": ");
    let t = crate::text::trimmed(text);
    push_str(&mut m, t.as_str());
    assert(m@ =~= "failed to checkout revision "@ + rev@ + ": "@ + trim(text@));
    BuildError::Dependency { name: string_from(dest), reason: m }
}

/// The error for a failed `git checkout <rev>`, from its stderr bytes.
pub fn checkout_error(rev: &str, dest: &str, stderr: &[u8]) -> (r: BuildError)
    ensures
        dependency_error(
            r,
            dest@,
            "failed to checkout revision "@ + rev@ + ": "@ + trim(utf8_lossy(stderr@)),
        ),
{
    let err = from_utf8_lossy(stderr);
    checkout_error_in(rev, dest, err.as_str())
}

pub open spec fn is_line_break(c: char) -> bool {
    c == '\r' || c == '\n'
}

/// Index of the last `\r` or `\n` in `s`, or -1.
pub open spec fn rfind_break(s: Seq<char>) -> int
    decreases s.len(),
{
    if s.len() == 0 {
        -1
    } else if is_line_break(s.last()) {
        s.len() - 1
    } else {
        rfind_break(s.drop_last())
    }
}

proof fn lemma_rfind_break_unique(s: Seq<char>, i: int)
    requires
        -1 <= i < s.len(),
        i >= 0 ==> is_line_break(s[i]),
        forall|j: int| i < j < s.len() ==> !is_line_break(s[j]),
    ensures
        rfind_break(s) == i,
    decreases s.len(),
{
    if s.len() > 0 && !is_line_break(s.last()) {
        lemma_rfind_break_unique(s.drop_last(), i);
    }
}

/// The last non-empty piece, trimmed, when `s` is cut at every `\r` and
/// `\n` (git redraws its progress meter with `\r`); empty when there is
/// none.
pub open spec fn last_progress_line_of(s: Seq<char>) -> Seq<char>
    decreases s.len(),
{
    let d = rfind_break(s);
    let seg = trim(s.skip(d + 1));
    if seg.len() > 0 {
        seg
    } else if d < 0 || d >= s.len() {
        seq![]
    } else {
        last_progress_line_of(s.take(d))
    }
}

/// The bounds of `last_progress_line_of(v[0..hi])` inside `v`.
fn last_line_bounds(v: &Vec<char>, hi: usize) -> (r: (usize, usize))
    requires
        hi <= v@.len(),
    ensures
        r.0 <= r.1 <= hi,
        v@.subrange(r.0 as int, r.1 as int) == last_progress_line_of(v@.take(hi as int)),
    decreases hi,
{
    let ghost s = v@.take(hi as int);
    let mut d = hi;
    while d > 0 && !(v[d - 1] == '\r' || v[d - 1] == '\n')
        invariant
            d <= hi <= v@.len(),
            forall|j: int| d <= j < hi ==> !is_line_break(v@[j]),
        decreases d,
    {
        d = d - 1;
    }
    proof {
        lemma_rfind_break_unique(s, d - 1);
        assert(s.skip(d as int) =~= v@.subrange(d as int, hi as int));
    }
    let (a, b) = trim_bounds(v, d, hi);
    if a < b || d == 0 {
        (a, b)
    } else {
        assert(s.take(d - 1) =~= v@.take(d - 1));
        last_line_bounds(v, d - 1)
    }
}

/// The last non-empty line, trimmed, of what a failed `git clone` wrote
/// to stderr, lines being ended by `\r` or `\n`.
pub fn last_progress_line_in(text: &str) -> (r: String)
    ensures
        r@ == last_progress_line_of(text@),
{
    let v = to_chars(text);
    assert(v@.take(v@.len() as int) =~= text@);
    let (a, b) = last_line_bounds(&v, v.len());
    string_of_range(&v, a, b)
}

/// The text a failed `git clone` is reported with: the last non-empty
/// line of what it wrote to stderr.
pub fn last_progress_line(captured: &[u8]) -> (r: String)
    ensures
        r@ == last_progress_line_of(utf8_lossy(captured@)),
{
    let text = from_utf8_lossy(captured);
    last_progress_line_in(text.as_str())
}

/// Where cloned git dependencies are cached, shared by every project on
/// the machine: `$XDG_CACHE_HOME/smidr/git`, else `$HOME/.cache/smidr/git`,
/// else `.smidr-cache/git` under the current directory.
pub open spec fn cache_root_of(xdg: Option<Seq<char>>, home: Option<Seq<char>>) -> Seq<char> {
    match xdg {
        Some(x) => join_path(join_path(x, "smidr"@), "git"@),
        None => match home {
            Some(h) => join_path(join_path(join_path(h, ".cache"@), "smidr"@), "git"@),
            None => join_path(".smidr-cache"@, "git"@),
        },
    }
}

/// The shared clone cache directory, given `$XDG_CACHE_HOME` and `$HOME`
/// (when set).
pub fn global_cache_root(xdg: Option<&str>, home: Option<&str>) -> (r: String)
    ensures
        r@ == cache_root_of(
            match xdg {
                Some(x) => Some(x@),
                None => None,
            },
            match home {
                Some(h) => Some(h@),
                None => None,
            },
        ),
{
    match xdg {
        Some(x) => {
            let a = join(x, "smidr");
            join(a.as_str(), "git")
        },
        None => match home {
            Some(h) => {
                let a = join(h, ".cache");
                let b = join(a.as_str(), "smidr");
                join(b.as_str(), "git")
            },
            None => join(".smidr-cache", "git"),
        },
    }
}

/// Every character that is not an ASCII letter or digit becomes `_`.
pub open spec fn sanitize(s: Seq<char>) -> Seq<char> {
    Seq::new(s.len(), |i: int| if is_ascii_alnum(s[i]) { s[i] } else { '_' })
}

fn push_sanitized(out: &mut String, s: &str)
    ensures
        final(out)@ == old(out)@ + sanitize(s@),
{
    let v = to_chars(s);
    let mut i: usize = 0;
    while i < v.len()
        invariant
            i <= v@.len(),
            v@ == s@,
            out@ == old(out)@ + sanitize(s@).take(i as int),
        decreases v.len() - i,
    {
        let c = v[i];
        if ('0' <= c && c <= '9') || ('a' <= c && c <= 'z') || ('A' <= c && c <= 'Z') {
            push_char(out, c);
        } else {
            push_char(out, '_');
        }
        i = i + 1;
        assert(out@ =~= old(out)@ + sanitize(s@).take(i as int));
    }
    assert(sanitize(s@).take(i as int) =~= sanitize(s@));
}

/// Where the first `://` starts in `s`, or -1.
pub open spec fn scheme_sep(s: Seq<char>) -> int
    decreases s.len(),
{
    if s.len() < 3 {
        -1
    } else if s[0] == ':' && s[1] == '/' && s[2] == '/' {
        0
    } else {
        let k = scheme_sep(s.drop_first());
        if k < 0 {
            -1
        } else {
            k + 1
        }
    }
}

/// The URL without its `scheme://` part, when it has one.
pub open spec fn strip_scheme(url: Seq<char>) -> Seq<char> {
    let k = scheme_sep(url);
    if k < 0 {
        url
    } else {
        url.skip(k + 3)
    }
}

/// Where what follows the scheme starts in `v`.
fn after_scheme(v: &Vec<char>) -> (r: usize)
    ensures
        r <= v@.len(),
        v@.skip(r as int) == strip_scheme(v@),
{
    let n = v.len();
    let mut i: usize = 0;
    assert(v@.skip(0) =~= v@);
    while n >= 3 && i <= n - 3
        invariant
            i <= n == v@.len(),
            scheme_sep(v@) == (if scheme_sep(v@.skip(i as int)) < 0 {
                -1
            } else {
                scheme_sep(v@.skip(i as int)) + i
            }),
        decreases n - i,
    {
        let ghost s = v@.skip(i as int);
        if v[i] == ':' && v[i + 1] == '/' && v[i + 2] == '/' {
            assert(s[0] == ':' && s[1] == '/' && s[2] == '/');
            assert(scheme_sep(s) == 0);
            return i + 3;
        }
        assert(s.drop_first() =~= v@.skip(i + 1));
        i = i + 1;
    }
    assert(v@.skip(i as int).len() < 3);
    0
}

/// A file-system-safe cache directory name for `url` at `ref_to_clone`:
/// the URL without its scheme, then the ref, e.g.
/// `https://github.com/foo/bar` + `v1.2.3` -> `github_com_foo_bar-v1_2_3`.
pub fn cache_key(url: &str, ref_to_clone: &str) -> (r: String)
    ensures
        r@ == sanitize(strip_scheme(url@)) + seq!['-'] + sanitize(ref_to_clone@),
{
    let v = to_chars(url);
    let k = after_scheme(&v);
    assert(v@.subrange(k as int, v@.len() as int) =~= v@.skip(k as int));
    let host_and_path = string_of_range(&v, k, v.len());
    let mut s = String::new();
    push_sanitized(&mut s, host_and_path.as_str());
    push_char(&mut s, '-');
    push_sanitized(&mut s, ref_to_clone);
    assert(s@ =~= sanitize(strip_scheme(url@)) + seq!['-'] + sanitize(ref_to_clone@));
    s
}

/// The temporary sibling a clone goes into before it is renamed into the
/// cache, so that an interrupted clone never looks like a cache hit.
pub fn temporary_cache_name(key: &str, process_id: u32) -> (r: String)
    ensures
        r@ == key@ + ".tmp-"@ + crate::text::decimal(process_id as nat),
{
    let mut s = string_from(key);
    push_str(&mut s, ".tmp-");
    crate::text::push_decimal(&mut s, process_id as usize);
    s
}

/// Whether a cache entry is copied into a project: everything but `.git`.
pub fn copies_entry(file_name: &str) -> (r: bool)
    ensures
        r == (file_name@ != ".git"@),
{
    !crate::text::str_eq(file_name, ".git")
}

// ---------------------------------------------------------------------
// Fetching a git dependency, step by step
// ---------------------------------------------------------------------

/// Where fetching a git dependency stands.
#[derive(Debug, Clone, Copy, PartialEq, Eq, Structural)]
pub enum FetchStage {
    /// Nothing done yet.
    Start,
    /// Waiting for the remote's tags.
    AwaitTags,
    /// Waiting for whether the checkout directory exists.
    AwaitDest,
    /// Waiting for whether the shared cache holds the ref.
    AwaitCache,
    /// Waiting for the clone into the cache.
    AwaitClone,
    /// Waiting for the copy out of the cache.
    AwaitCopy,
}

/// Fetching one git dependency into `dest`, through the shared clone
/// cache under `cache_root`.
pub struct GitFetch {
    pub name: String,
    pub url: String,
    pub dest: String,
    pub cache_root: String,
    /// The id of this process, which names the temporary clone.
    pub process_id: u32,
    pub plan: GitRef,
    /// The ref that is cloned, once known.
    pub ref_name: String,
    pub stage: FetchStage,
}

/// What the caller has to do next for a [`GitFetch`].
pub enum FetchAction {
    /// Run `git ls-remote --tags --refs` on this URL; answer with
    /// `FetchEvent::Tags`.
    ListTags(String),
    /// Tell whether this directory exists; answer with
    /// `FetchEvent::DestExists`.
    CheckDest(String),
    /// Tell whether this cache entry exists; answer with
    /// `FetchEvent::CacheExists`.
    CheckCache(String),
    /// Run `clone` (into a temporary directory), then move its result to
    /// `cache_dir`; answer with `FetchEvent::Cloned`.
    Clone { clone: GitClone, cache_dir: String },
    /// Copy the cache entry `from` into `to`, leaving out `.git`; answer
    /// with `FetchEvent::Copied`.
    Copy { from: String, to: String },
    /// The dependency's sources are in this directory.
    Ready(String),
}

/// What the caller reports back to a [`GitFetch`].
pub enum FetchEvent {
    Start,
    /// Whether `git ls-remote` succeeded, and what it printed.
    Tags { success: bool, stdout: Vec<u8>, stderr: Vec<u8> },
    DestExists(bool),
    CacheExists(bool),
    Cloned(Result<(), BuildError>),
    Copied(Result<(), BuildError>),
}

/// The event answers what the stage waits on.
pub open spec fn fetch_event_fits(stage: FetchStage, e: FetchEvent) -> bool {
    match stage {
        FetchStage::Start => e is Start,
        FetchStage::AwaitTags => e is Tags,
        FetchStage::AwaitDest => e is DestExists,
        FetchStage::AwaitCache => e is CacheExists,
        FetchStage::AwaitClone => e is Cloned,
        FetchStage::AwaitCopy => e is Copied,
    }
}

/// The ref a plan names; empty for the latest tag, which is looked up.
pub open spec fn plan_ref(plan: GitRef) -> Seq<char> {
    match plan {
        GitRef::Branch(b) => b@,
        GitRef::Tag(t) => t@,
        GitRef::Rev(v) => v@,
        GitRef::LatestTag => seq![],
    }
}

/// The cache entry of the fetch: its cache key under the cache root.
pub open spec fn fetch_cache_dir(f: GitFetch) -> Seq<char> {
    join_path(f.cache_root@, sanitize(strip_scheme(f.url@)) + seq!['-'] + sanitize(f.ref_name@))
}

/// The temporary directory the fetch clones into.
pub open spec fn fetch_tmp_dir(f: GitFetch) -> Seq<char> {
    join_path(
        f.cache_root@,
        sanitize(strip_scheme(f.url@)) + seq!['-'] + sanitize(f.ref_name@) + ".tmp-"@
            + crate::text::decimal(f.process_id as nat),
    )
}

/// `c` is the clone [`clone_for`] gives for `plan`, `url`, `ref_name` and
/// `dest`.
pub open spec fn clone_matches(c: GitClone, plan: GitRef, url: Seq<char>, ref_name: Seq<char>, dest: Seq<char>) -> bool {
    &&& c.url@ == url
    &&& c.dest@ == dest
    &&& match plan {
        GitRef::Rev(_) => c.extra_args@.len() == 0 && (c.checkout matches Some(x) && x@ == ref_name),
        _ => string_views(c.extra_args@) == seq!["--branch"@, ref_name, "--depth"@, "1"@]
            && c.checkout is None,
    }
}

/// Only the ref and the stage of a fetch change.
pub open spec fn same_fetch(a: GitFetch, b: GitFetch) -> bool {
    &&& a.name == b.name
    &&& a.url == b.url
    &&& a.dest == b.dest
    &&& a.cache_root == b.cache_root
    &&& a.process_id == b.process_id
    &&& a.plan == b.plan
}

fn ref_of(plan: &GitRef) -> (r: String)
    ensures
        r@ == plan_ref(*plan),
{
    match plan {
        GitRef::Branch(b) => b.clone(),
        GitRef::Tag(t) => t.clone(),
        GitRef::Rev(v) => v.clone(),
        GitRef::LatestTag => String::new(),
    }
}

impl GitFetch {
    /// A fetch of `url` for the dependency `name` into `dest`; at most one
    /// of `tag`, `branch` and `rev` may be given ([`git_ref_plan`]).
    pub fn new(
        name: &str,
        url: &str,
        tag: &Option<String>,
        branch: &Option<String>,
        rev: &Option<String>,
        dest: &str,
        cache_root: &str,
        process_id: u32,
    ) -> (r: Result<GitFetch, BuildError>)
        ensures
            (tag is Some) as int + (branch is Some) as int + (rev is Some) as int > 1 ==> (r is Err
                && dependency_error(
                r->Err_0,
                name@,
                "only one of tag, branch, or rev may be specified"@,
            )),
            (tag is Some) as int + (branch is Some) as int + (rev is Some) as int <= 1 ==> (r matches Ok(
                f,
            ) && f.name@ == name@ && f.url@ == url@ && f.dest@ == dest@ && f.cache_root@
                == cache_root@ && f.process_id == process_id && f.stage == FetchStage::Start
                && f.ref_name@ == plan_ref(f.plan) && match (branch, tag, rev) {
                (Some(b), _, _) => f.plan matches GitRef::Branch(x) && x@ == b@,
                (None, Some(t), _) => f.plan matches GitRef::Tag(x) && x@ == t@,
                (None, None, Some(v)) => f.plan matches GitRef::Rev(x) && x@ == v@,
                (None, None, None) => f.plan matches GitRef::LatestTag,
            }),
    {
        let plan = git_ref_plan(name, tag, branch, rev)?;
        let ref_name = ref_of(&plan);
        Ok(
            GitFetch {
                name: string_from(name),
                url: string_from(url),
                dest: string_from(dest),
                cache_root: string_from(cache_root),
                process_id,
                plan,
                ref_name,
                stage: FetchStage::Start,
            },
        )
    }

    /// Whether `e` answers what this fetch waits on.
    pub fn accepts(&self, e: &FetchEvent) -> (r: bool)
        ensures
            r == fetch_event_fits(self.stage, *e),
    {
        match (self.stage, e) {
            (FetchStage::Start, FetchEvent::Start) => true,
            (FetchStage::AwaitTags, FetchEvent::Tags { .. }) => true,
            (FetchStage::AwaitDest, FetchEvent::DestExists(_)) => true,
            (FetchStage::AwaitCache, FetchEvent::CacheExists(_)) => true,
            (FetchStage::AwaitClone, FetchEvent::Cloned(_)) => true,
            (FetchStage::AwaitCopy, FetchEvent::Copied(_)) => true,
            _ => false,
        }
    }

    fn cache_dir(&self) -> (r: String)
        ensures
            r@ == fetch_cache_dir(*self),
    {
        let key = cache_key(self.url.as_str(), self.ref_name.as_str());
        join(self.cache_root.as_str(), key.as_str())
    }

    /// One step of fetching: take the caller's answer to the previous
    /// action and say what to do next. The ref is settled first (the
    /// latest stable tag when none is pinned); an existing checkout is
    /// used as it is; otherwise the checkout is copied from the shared
    /// cache, after cloning into the cache when it does not hold the ref
    /// yet.
    pub fn step(&mut self, event: FetchEvent) -> (r: Result<FetchAction, BuildError>)
        requires
            fetch_event_fits(old(self).stage, event),
        ensures
            same_fetch(*final(self), *old(self)),
            match event {
                FetchEvent::Start => final(self).ref_name == old(self).ref_name && if old(
                    self,
                ).plan is LatestTag {
                    r matches Ok(FetchAction::ListTags(u)) && u@ == old(self).url@
                        && final(self).stage == FetchStage::AwaitTags
                } else {
                    r matches Ok(FetchAction::CheckDest(d)) && d@ == old(self).dest@
                        && final(self).stage == FetchStage::AwaitDest
                },
                FetchEvent::Tags { success, stdout, stderr } => if !success {
                    r is Err && dependency_error(
                        r->Err_0,
                        old(self).url@,
                        "failed to query tags: "@ + trim(utf8_lossy(stderr@)),
                    )
                } else {
                    match latest_stable(tag_names(lines(utf8_lossy(stdout@)))) {
                        Some(t) => final(self).ref_name@ == t && (r matches Ok(
                            FetchAction::CheckDest(d),
                        ) && d@ == old(self).dest@) && final(self).stage == FetchStage::AwaitDest,
                        None => r is Err && dependency_error(
                            r->Err_0,
                            old(self).name@,
                            no_stable_tag_reason(),
                        ),
                    }
                },
                FetchEvent::DestExists(exists) => final(self).ref_name == old(self).ref_name && if exists {
                    r matches Ok(FetchAction::Ready(d)) && d@ == old(self).dest@
                } else {
                    (r matches Ok(FetchAction::CheckCache(c)) && c@ == fetch_cache_dir(*old(self)))
                        && final(self).stage == FetchStage::AwaitCache
                },
                FetchEvent::CacheExists(hit) => final(self).ref_name == old(self).ref_name && if hit {
                    (r matches Ok(FetchAction::Copy { from, to }) && from@ == fetch_cache_dir(
                        *old(self),
                    ) && to@ == old(self).dest@) && final(self).stage == FetchStage::AwaitCopy
                } else {
                    (r matches Ok(FetchAction::Clone { clone, cache_dir }) && cache_dir@
                        == fetch_cache_dir(*old(self)) && clone_matches(
                        clone,
                        old(self).plan,
                        old(self).url@,
                        old(self).ref_name@,
                        fetch_tmp_dir(*old(self)),
                    )) && final(self).stage == FetchStage::AwaitClone
                },
                FetchEvent::Cloned(Ok(())) => final(self).ref_name == old(self).ref_name && (r matches Ok(
                    FetchAction::Copy { from, to },
                ) && from@ == fetch_cache_dir(*old(self)) && to@ == old(self).dest@)
                    && final(self).stage == FetchStage::AwaitCopy,
                FetchEvent::Cloned(Err(e)) => r == Err::<FetchAction, BuildError>(e),
                FetchEvent::Copied(Ok(())) => r matches Ok(FetchAction::Ready(d)) && d@ == old(
                    self,
                ).dest@,
                FetchEvent::Copied(Err(e)) => r == Err::<FetchAction, BuildError>(e),
            },
    {
        match event {
            FetchEvent::Start => {
                if let GitRef::LatestTag = self.plan {
                    self.stage = FetchStage::AwaitTags;
                    Ok(FetchAction::ListTags(self.url.clone()))
                } else {
                    self.stage = FetchStage::AwaitDest;
                    Ok(FetchAction::CheckDest(self.dest.clone()))
                }
            },
            FetchEvent::Tags { success, stdout, stderr } => {
                let tags = list_tags(self.url.as_str(), success, stdout.as_slice(), stderr.as_slice())?;
                let latest = latest_tag_or_error(self.name.as_str(), tags)?;
                self.ref_name = latest;
                self.stage = FetchStage::AwaitDest;
                Ok(FetchAction::CheckDest(self.dest.clone()))
            },
            FetchEvent::DestExists(exists) => {
                if exists {
                    Ok(FetchAction::Ready(self.dest.clone()))
                } else {
                    self.stage = FetchStage::AwaitCache;
                    Ok(FetchAction::CheckCache(self.cache_dir()))
                }
            },
            FetchEvent::CacheExists(hit) => {
                let cache_dir = self.cache_dir();
                if hit {
                    self.stage = FetchStage::AwaitCopy;
                    Ok(FetchAction::Copy { from: cache_dir, to: self.dest.clone() })
                } else {
                    let key = cache_key(self.url.as_str(), self.ref_name.as_str());
                    let tmp_name = temporary_cache_name(key.as_str(), self.process_id);
                    let tmp = join(self.cache_root.as_str(), tmp_name.as_str());
                    let clone = clone_for(&self.plan, self.url.as_str(), self.ref_name.as_str(), tmp.as_str());
                    self.stage = FetchStage::AwaitClone;
                    Ok(FetchAction::Clone { clone, cache_dir })
                }
            },
            FetchEvent::Cloned(Ok(())) => {
                self.stage = FetchStage::AwaitCopy;
                Ok(FetchAction::Copy { from: self.cache_dir(), to: self.dest.clone() })
            },
            FetchEvent::Cloned(Err(e)) => Err(e),
            FetchEvent::Copied(Ok(())) => Ok(FetchAction::Ready(self.dest.clone())),
            FetchEvent::Copied(Err(e)) => Err(e),
        }
    }
}

/// The shared cache is keyed by URL and resolved ref alone: two fetches
/// of the same URL at the same ref use the same cache entry, whatever
/// dependency, project or checkout directory they are for.
pub proof fn law_fetch_cache_shared(a: GitFetch, b: GitFetch)
    requires
        a.cache_root@ == b.cache_root@,
        a.url@ == b.url@,
        a.ref_name@ == b.ref_name@,
    ensures
        fetch_cache_dir(a) == fetch_cache_dir(b),
{
}

/// Two fetches made by [`GitFetch::new`] of the same URL pinned to the same
/// ref (tag, branch or rev) use the same cache entry, whatever dependency,
/// project or checkout directory they are for: once one has cloned the ref
/// into the cache, the other finds it there and copies it
/// ([`GitFetch::step`] on `CacheExists(true)`) instead of cloning.
pub proof fn law_pinned_fetch_cache_shared(a: GitFetch, b: GitFetch)
    requires
        a.cache_root@ == b.cache_root@,
        a.url@ == b.url@,
        a.ref_name@ == plan_ref(a.plan),
        b.ref_name@ == plan_ref(b.plan),
        !(a.plan is LatestTag),
        plan_ref(a.plan) == plan_ref(b.plan),
    ensures
        fetch_cache_dir(a) == fetch_cache_dir(b),
{
    law_fetch_cache_shared(a, b);
}

proof fn lemma_latest_from(tags: Seq<Seq<char>>, best: Option<Seq<char>>)
    requires
        best matches Some(b) ==> is_stable_tag(b),
    ensures
        latest_from(tags, best) matches Some(t) ==> is_stable_tag(t) && (best == Some(t)
            || tags.contains(t)),
        (best is Some || exists|i: int| 0 <= i < tags.len() && is_stable_tag(#[trigger] tags[i]))
            ==> latest_from(tags, best) is Some,
    decreases tags.len(),
{
    if tags.len() > 0 {
        let t = tags[0];
        let next = if is_stable_tag(t) {
            match best {
                Some(b) => if semver_order(strip_v(b), strip_v(t)) == 1 {
                    Some(b)
                } else {
                    Some(t)
                },
                None => Some(t),
            }
        } else {
            best
        };
        lemma_latest_from(tags.drop_first(), next);
        if let Some(r) = latest_from(tags, best) {
            if tags.drop_first().contains(r) {
                let k = choose|k: int| 0 <= k < tags.drop_first().len() && tags.drop_first()[k] == r;
                assert(tags[k + 1] == r);
            }
            if next == Some(r) && r == t {
                assert(tags[0] == r);
            }
        }
        if exists|i: int| 0 <= i < tags.len() && is_stable_tag(#[trigger] tags[i]) {
            let i = choose|i: int| 0 <= i < tags.len() && is_stable_tag(#[trigger] tags[i]);
            if i > 0 {
                assert(tags.drop_first()[i - 1] == tags[i]);
            }
        }
    }
}

/// The latest stable tag, when there is one, is one of the tags and is a
/// stable release; there is one exactly when some tag is a stable release.
pub proof fn law_latest_stable(tags: Seq<Seq<char>>)
    ensures
        latest_stable(tags) matches Some(t) ==> tags.contains(t) && is_stable_tag(t),
        latest_stable(tags) is Some <==> exists|i: int|
            0 <= i < tags.len() && is_stable_tag(#[trigger] tags[i]),
{
    lemma_latest_from(tags, None);
    if let Some(t) = latest_stable(tags) {
        let k = choose|k: int| 0 <= k < tags.len() && tags[k] == t;
        assert(is_stable_tag(tags[k]));
    }
}

/// A cache key is file-system safe: ASCII letters, digits, `_` and the one
/// `-` between URL and ref; and it is determined by the URL and the ref.
pub proof fn law_cache_key_safe(url: Seq<char>, r: Seq<char>)
    ensures
        forall|i: int|
            0 <= i < (sanitize(strip_scheme(url)) + seq!['-'] + sanitize(r)).len() ==> {
                let c = #[trigger] (sanitize(strip_scheme(url)) + seq!['-'] + sanitize(r))[i];
                is_ascii_alnum(c) || c == '_' || c == '-'
            },
        (sanitize(strip_scheme(url)) + seq!['-'] + sanitize(r)).len() == strip_scheme(url).len()
            + 1 + r.len(),
{
    let u = strip_scheme(url);
    let k = sanitize(u) + seq!['-'] + sanitize(r);
    assert forall|i: int| 0 <= i < k.len() implies {
        let c = #[trigger] k[i];
        is_ascii_alnum(c) || c == '_' || c == '-'
    } by {
        if i < u.len() {
            assert(k[i] == sanitize(u)[i]);
        } else if i > u.len() {
            assert(k[i] == sanitize(r)[i - u.len() - 1]);
        }
    }
}
} // verus!

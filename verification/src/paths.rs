//! File-system paths as strings, with Unix `Path` semantics.
//!
//! The paths handled here are built by joining names onto a root, or come
//! from listing a directory: they carry no trailing separator and no `.`
//! or `..` components other than a whole file name.

use vstd::prelude::*;
use crate::text::{push_range, range_eq, string_of_range, to_chars};

verus! {

broadcast use vstd::string::group_string_axioms;

/// `Path::join` on Unix: an absolute `p` replaces `base`; otherwise `p` is
/// appended, with a `/` in between unless `base` is empty or already ends
/// in `/`.
pub open spec fn join_path(base: Seq<char>, p: Seq<char>) -> Seq<char> {
    if p.len() > 0 && p[0] == '/' {
        p
    } else if base.len() == 0 || base.last() == '/' {
        base + p
    } else {
        base + seq!['/'] + p
    }
}

/// `base` joined with `p`.
pub fn join(base: &str, p: &str) -> (r: String)
    ensures
        r@ == join_path(base@, p@),
{
    let b = to_chars(base);
    let q = to_chars(p);
    if q.len() > 0 && q[0] == '/' {
        return string_of_range(&q, 0, q.len());
    }
    let mut s = string_of_range(&b, 0, b.len());
    if b.len() > 0 && b[b.len() - 1] != '/' {
        crate::text::push_char(&mut s, '/');
    }
    push_range(&mut s, &q, 0, q.len());
    assert(b@.subrange(0, b@.len() as int) =~= base@);
    assert(q@.subrange(0, q@.len() as int) =~= p@);
    assert(s@ =~= join_path(base@, p@));
    s
}

/// Index of the last `c` in `s`, or -1.
pub open spec fn rfind_char(s: Seq<char>, c: char) -> int
    decreases s.len(),
{
    if s.len() == 0 {
        -1
    } else if s.last() == c {
        s.len() - 1
    } else {
        rfind_char(s.drop_last(), c)
    }
}

proof fn lemma_rfind_char_unique(s: Seq<char>, c: char, i: int)
    requires
        -1 <= i < s.len(),
        i >= 0 ==> s[i] == c,
        forall|j: int| i < j < s.len() ==> s[j] != c,
    ensures
        rfind_char(s, c) == i,
    decreases s.len(),
{
    if s.len() > 0 && s.last() != c {
        lemma_rfind_char_unique(s.drop_last(), c, i);
    }
}

/// Index of the last `c` in `v[0..hi]`, if any.
fn rfind_in(v: &Vec<char>, hi: usize, c: char) -> (r: Option<usize>)
    requires
        hi <= v@.len(),
    ensures
        match r {
            Some(i) => i < hi && i == rfind_char(v@.subrange(0, hi as int), c),
            None => rfind_char(v@.subrange(0, hi as int), c) == -1,
        },
{
    let mut i = hi;
    while i > 0 && v[i - 1] != c
        invariant
            i <= hi <= v@.len(),
            forall|j: int| i <= j < hi ==> v@[j] != c,
        decreases i,
    {
        i = i - 1;
    }
    let ghost s = v@.subrange(0, hi as int);
    if i == 0 {
        proof {
            lemma_rfind_char_unique(s, c, -1);
        }
        None
    } else {
        proof {
            lemma_rfind_char_unique(s, c, i - 1);
        }
        Some(i - 1)
    }
}

/// The last component of a path: what follows its last `/`.
pub open spec fn file_name_of(p: Seq<char>) -> Seq<char> {
    p.skip(rfind_char(p, '/') + 1)
}

/// `Path::extension` of a file name: what follows its last `.`; none when
/// there is no dot, when the only dot starts the name (`.gitignore`), or
/// for `..`.
pub open spec fn extension_of(name: Seq<char>) -> Option<Seq<char>> {
    let d = rfind_char(name, '.');
    if name == seq!['.', '.'] || d <= 0 {
        None
    } else {
        Some(name.skip(d + 1))
    }
}

/// `Path::file_stem` of a file name: the name without its extension.
pub open spec fn file_stem_of(name: Seq<char>) -> Seq<char> {
    match extension_of(name) {
        Some(_) => name.take(rfind_char(name, '.')),
        None => name,
    }
}

/// The file name of `path` (its last component).
pub fn file_name(path: &str) -> (r: String)
    ensures
        r@ == file_name_of(path@),
{
    let v = to_chars(path);
    let start = match rfind_in(&v, v.len(), '/') {
        Some(i) => i + 1,
        None => 0,
    };
    assert(v@.subrange(0, v@.len() as int) =~= path@);
    let r = string_of_range(&v, start, v.len());
    assert(r@ =~= file_name_of(path@));
    r
}

/// Extension and stem of `v[lo..hi]`, a file name.
fn split_ext(v: &Vec<char>, lo: usize, hi: usize) -> (r: Option<usize>)
    requires
        lo <= hi <= v@.len(),
    ensures
        match r {
            Some(d) => lo < d < hi && extension_of(v@.subrange(lo as int, hi as int)) == Some(
                v@.subrange(d + 1, hi as int),
            ) && file_stem_of(v@.subrange(lo as int, hi as int)) == v@.subrange(lo as int, d as int),
            None => extension_of(v@.subrange(lo as int, hi as int)) is None && file_stem_of(
                v@.subrange(lo as int, hi as int),
            ) == v@.subrange(lo as int, hi as int),
        },
{
    let ghost name = v@.subrange(lo as int, hi as int);
    if range_eq(v, lo, hi, "..") {
        proof {
            reveal_strlit("..");
            assert(".."@ =~= seq!['.', '.']);
        }
        return None;
    }
    proof {
        reveal_strlit("..");
        assert(".."@ =~= seq!['.', '.']);
    }
    let mut i = hi;
    while i > lo && v[i - 1] != '.'
        invariant
            lo <= i <= hi <= v@.len(),
            forall|j: int| i <= j < hi ==> v@[j] != '.',
        decreases i,
    {
        i = i - 1;
    }
    proof {
        if i > lo {
            lemma_rfind_char_unique(name, '.', i - 1 - lo);
        } else {
            lemma_rfind_char_unique(name, '.', -1);
        }
    }
    if i - lo <= 1 {
        None
    } else {
        proof {
            assert(name.skip(i - lo) =~= v@.subrange(i as int, hi as int));
            assert(name.take(i - 1 - lo) =~= v@.subrange(lo as int, i - 1));
        }
        Some(i - 1)
    }
}

/// The extension of the file `path` names, if it has one.
pub fn extension(path: &str) -> (r: Option<String>)
    ensures
        match r {
            Some(e) => extension_of(file_name_of(path@)) == Some(e@),
            None => extension_of(file_name_of(path@)) is None,
        },
{
    let v = to_chars(path);
    let start = match rfind_in(&v, v.len(), '/') {
        Some(i) => i + 1,
        None => 0,
    };
    assert(v@.subrange(0, v@.len() as int) =~= path@);
    assert(v@.subrange(start as int, v@.len() as int) =~= file_name_of(path@));
    match split_ext(&v, start, v.len()) {
        Some(d) => Some(string_of_range(&v, d + 1, v.len())),
        None => None,
    }
}

/// The file stem of the file `path` names.
pub fn file_stem(path: &str) -> (r: String)
    ensures
        r@ == file_stem_of(file_name_of(path@)),
{
    let v = to_chars(path);
    let start = match rfind_in(&v, v.len(), '/') {
        Some(i) => i + 1,
        None => 0,
    };
    assert(v@.subrange(0, v@.len() as int) =~= path@);
    assert(v@.subrange(start as int, v@.len() as int) =~= file_name_of(path@));
    match split_ext(&v, start, v.len()) {
        Some(d) => string_of_range(&v, start, d),
        None => string_of_range(&v, start, v.len()),
    }
}

/// Whether the file `path` names has one of `exts` as its extension.
pub open spec fn has_extension_in(path: Seq<char>, exts: Seq<Seq<char>>) -> bool {
    match extension_of(file_name_of(path)) {
        Some(e) => exts.contains(e),
        None => false,
    }
}

/// Whether the file `path` names has one of `exts` as its extension.
#[verifier::loop_isolation(false)]
pub fn extension_in(path: &str, exts: &Vec<&str>) -> (r: bool)
    ensures
        r == has_extension_in(path@, exts@.map_values(|e: &str| e@)),
{
    let ghost ev = exts@.map_values(|e: &str| e@);
    match extension(path) {
        Some(e) => {
            let mut i: usize = 0;
            while i < exts.len()
                invariant
                    i <= exts@.len(),
                    ev == exts@.map_values(|e: &str| e@),
                    forall|j: int| 0 <= j < i ==> ev[j] != e@,
                decreases exts.len() - i,
            {
                if crate::text::str_eq(e.as_str(), exts[i]) {
                    assert(ev[i as int] == e@);
                    return true;
                }
                i = i + 1;
            }
            false
        },
        None => false,
    }
}

/// Joining a plain name (no `/`) onto a directory gives a path whose file
/// name is that name.
pub proof fn law_join_file_name(base: Seq<char>, name: Seq<char>)
    requires
        !name.contains('/'),
    ensures
        file_name_of(join_path(base, name)) == name,
{
    let j = join_path(base, name);
    if name.len() > 0 && name[0] == '/' {
        assert(name.contains('/'));
    }
    let k: int = if base.len() == 0 {
        -1
    } else if base.last() == '/' {
        base.len() - 1
    } else {
        base.len() as int
    };
    assert forall|x: int| k < x < j.len() implies j[x] != '/' by {
        if x >= j.len() - name.len() {
            assert(j[x] == name[x - (j.len() - name.len())]);
        }
    }
    if k >= 0 {
        assert(j[k] == '/');
    }
    lemma_rfind_char_unique(j, '/', k);
    assert(j.skip(k + 1) =~= name);
}
} // verus!

//! Compiler diagnostics: parsing gcc/clang's single-line format
//! `file:line:column: severity: message` and rendering it in the
//! `rustc`/`cargo` visual style (colored severity, a `-->` location line,
//! the offending source line and a caret under the column).

use vstd::prelude::*;
use crate::text::{
    decimal, decimal_len, find_in, is_digit, is_ws, lemma_parse_decimal, lemma_split_once_at,
    lemma_trim_id, lemma_trim_leading_ws, lemma_trim_trailing_ws, lemma_trimmed_ends, lines,
    next_line, parse_usize, parse_usize_range, push_char, push_decimal, push_range, push_str,
    range_eq, split_once, splitn, string_of_range, to_chars, trim, trim_bounds, trim_end,
};

verus! {

broadcast use vstd::string::group_string_axioms;

pub const RESET: &'static str = "\x1b[0m";
pub const BOLD: &'static str = "\x1b[1m";
pub const BLUE: &'static str = "\x1b[1;94m";

/// Severity of a single diagnostic; drives its color and how it is counted
/// in the summary line.
#[derive(Debug, Clone, Copy, PartialEq, Eq, Structural)]
pub enum Severity {
    Error,
    Warning,
    Note,
}

/// The severity word, trimmed, as gcc/clang write it between the second
/// and third colon (gcc's two-word `fatal error` counts as an error).
pub open spec fn severity_of(t: Seq<char>) -> Option<Severity> {
    if t == "error"@ || t == "fatal error"@ {
        Some(Severity::Error)
    } else if t == "warning"@ {
        Some(Severity::Warning)
    } else if t == "note"@ {
        Some(Severity::Note)
    } else {
        None
    }
}

pub open spec fn color_of(s: Severity) -> Seq<char> {
    match s {
        Severity::Error => "\x1b[1;91m"@,
        Severity::Warning => "\x1b[1;93m"@,
        Severity::Note => "\x1b[1;96m"@,
    }
}

pub open spec fn label_of(s: Severity) -> Seq<char> {
    match s {
        Severity::Error => "error"@,
        Severity::Warning => "warning"@,
        Severity::Note => "note"@,
    }
}

impl Severity {
    /// Parse a severity word; surrounding whitespace is ignored.
    pub fn parse(s: &str) -> (r: Option<Severity>)
        ensures
            r == severity_of(trim(s@)),
    {
        let v = to_chars(s);
        let (a, b) = trim_bounds(&v, 0, v.len());
        assert(v@.subrange(0, v@.len() as int) =~= s@);
        severity_in_range(&v, a, b)
    }

    /// The ANSI color sequence used for this severity.
    pub fn color(self) -> (r: &'static str)
        ensures
            r@ == color_of(self),
    {
        match self {
            Severity::Error => "\x1b[1;91m",
            Severity::Warning => "\x1b[1;93m",
            Severity::Note => "\x1b[1;96m",
        }
    }

    /// The lower-case name of this severity.
    pub fn label(self) -> (r: &'static str)
        ensures
            r@ == label_of(self),
    {
        match self {
            Severity::Error => "error",
            Severity::Warning => "warning",
            Severity::Note => "note",
        }
    }
}

/// `severity_of(v[a..b])`.
fn severity_in_range(v: &Vec<char>, a: usize, b: usize) -> (r: Option<Severity>)
    requires
        a <= b <= v@.len(),
    ensures
        r == severity_of(v@.subrange(a as int, b as int)),
{
    if range_eq(v, a, b, "error") || range_eq(v, a, b, "fatal error") {
        Some(Severity::Error)
    } else if range_eq(v, a, b, "warning") {
        Some(Severity::Warning)
    } else if range_eq(v, a, b, "note") {
        Some(Severity::Note)
    } else {
        None
    }
}

/// A single diagnostic, parsed from one line of gcc/clang stderr output.
#[derive(Debug, Clone)]
pub struct Diagnostic {
    pub file: String,
    pub line: usize,
    pub column: usize,
    pub severity: Severity,
    pub message: String,
}

/// The mathematical content of a [`Diagnostic`].
pub ghost struct DiagnosticView {
    pub file: Seq<char>,
    pub line: usize,
    pub column: usize,
    pub severity: Severity,
    pub message: Seq<char>,
}

impl View for Diagnostic {
    type V = DiagnosticView;

    open spec fn view(&self) -> DiagnosticView {
        DiagnosticView {
            file: self.file@,
            line: self.line,
            column: self.column,
            severity: self.severity,
            message: self.message@,
        }
    }
}

/// What `Diagnostic::parse_line` makes of one line: the line is cut with
/// `splitn(4, ':')`; the first piece (trimmed) is the file, the next two
/// (trimmed) must parse as line and column numbers, and the last piece
/// (trimmed) must split once more at `:` into a severity word and the
/// message. A line whose file is empty or whose line or column is 0 is
/// no diagnostic either.
pub open spec fn parse_line_spec(l: Seq<char>) -> Option<DiagnosticView> {
    let parts = splitn(l, 4, ':');
    if parts.len() < 4 {
        None
    } else {
        let file = trim(parts[0]);
        match (parse_usize(trim(parts[1])), parse_usize(trim(parts[2]))) {
            (Some(ln), Some(col)) => match split_once(trim(parts[3]), ':') {
                Some((sev, msg)) => match severity_of(trim(sev)) {
                    Some(sv) => if file.len() == 0 || ln == 0 || col == 0 {
                        None
                    } else {
                        Some(
                            DiagnosticView {
                                file,
                                line: ln,
                                column: col,
                                severity: sv,
                                message: trim(msg),
                            },
                        )
                    },
                    None => None,
                },
                None => None,
            },
            _ => None,
        }
    }
}

/// Lifts `parse_line_spec` over a list of lines, keeping the hits in order.
pub open spec fn parse_all_spec(ls: Seq<Seq<char>>) -> Seq<DiagnosticView>
    decreases ls.len(),
{
    if ls.len() == 0 {
        seq![]
    } else {
        match parse_line_spec(ls[0]) {
            Some(d) => seq![d] + parse_all_spec(ls.drop_first()),
            None => parse_all_spec(ls.drop_first()),
        }
    }
}

pub open spec fn views(ds: Seq<Diagnostic>) -> Seq<DiagnosticView> {
    ds.map_values(|d: Diagnostic| d@)
}

impl Diagnostic {
    /// Parse one line of gcc/clang diagnostic output
    /// (`file:line:column: severity: message`).
    ///
    /// Returns `None` for anything that does not match - continuation
    /// lines like "In file included from ...", blank lines, or echoed
    /// source snippets.
    pub fn parse_line(line: &str) -> (r: Option<Diagnostic>)
        ensures
            r matches Some(d) ==> parse_line_spec(line@) == Some(d@),
            r is None ==> parse_line_spec(line@) is None,
    {
        let v = to_chars(line);
        assert(v@.subrange(0, v@.len() as int) =~= line@);
        parse_line_in(&v, 0, v.len())
    }
}

/// `Diagnostic::parse_line` on `v[lo..hi]`.
fn parse_line_in(v: &Vec<char>, lo: usize, hi: usize) -> (r: Option<Diagnostic>)
    requires
        lo <= hi <= v@.len(),
    ensures
        r matches Some(d) ==> parse_line_spec(v@.subrange(lo as int, hi as int)) == Some(d@),
        r is None ==> parse_line_spec(v@.subrange(lo as int, hi as int)) is None,
{
    let ghost l = v@.subrange(lo as int, hi as int);
    let c1 = find_in(v, lo, hi, ':');
    if c1 == hi {
        proof {
            assert(splitn(l, 4, ':') =~= seq![l]);
        }
        return None;
    }
    let c2 = find_in(v, c1 + 1, hi, ':');
    let ghost r1 = v@.subrange(c1 + 1, hi as int);
    proof {
        assert(l.take(c1 - lo) =~= v@.subrange(lo as int, c1 as int));
        assert(l.skip(c1 - lo + 1) =~= r1);
        assert(splitn(l, 4, ':') == seq![v@.subrange(lo as int, c1 as int)] + splitn(r1, 3, ':'));
    }
    if c2 == hi {
        proof {
            assert(splitn(r1, 3, ':') =~= seq![r1]);
            assert(splitn(l, 4, ':').len() == 2);
        }
        return None;
    }
    let c3 = find_in(v, c2 + 1, hi, ':');
    let ghost r2 = v@.subrange(c2 + 1, hi as int);
    proof {
        assert(r1.take(c2 - c1 - 1) =~= v@.subrange(c1 + 1, c2 as int));
        assert(r1.skip(c2 - c1) =~= r2);
        assert(splitn(r1, 3, ':') == seq![v@.subrange(c1 + 1, c2 as int)] + splitn(r2, 2, ':'));
    }
    if c3 == hi {
        proof {
            assert(splitn(r2, 2, ':') =~= seq![r2]);
            assert(splitn(l, 4, ':').len() == 3);
        }
        return None;
    }
    let ghost r3 = v@.subrange(c3 + 1, hi as int);
    proof {
        assert(r2.take(c3 - c2 - 1) =~= v@.subrange(c2 + 1, c3 as int));
        assert(r2.skip(c3 - c2) =~= r3);
        assert(splitn(r3, 1, ':') == seq![r3]);
        assert(splitn(r2, 2, ':') == seq![v@.subrange(c2 + 1, c3 as int)] + seq![r3]);
        let parts = splitn(l, 4, ':');
        assert(parts =~= seq![
            v@.subrange(lo as int, c1 as int),
            v@.subrange(c1 + 1, c2 as int),
            v@.subrange(c2 + 1, c3 as int),
            r3,
        ]);
    }
    let (fa, fb) = trim_bounds(v, lo, c1);
    let (la, lb) = trim_bounds(v, c1 + 1, c2);
    let line_num = match parse_usize_range(v, la, lb) {
        Some(n) => n,
        None => {
            return None;
        },
    };
    let (ka, kb) = trim_bounds(v, c2 + 1, c3);
    let col_num = match parse_usize_range(v, ka, kb) {
        Some(n) => n,
        None => {
            return None;
        },
    };
    let (ra, rb) = trim_bounds(v, c3 + 1, hi);
    let s1 = find_in(v, ra, rb, ':');
    let ghost rest = v@.subrange(ra as int, rb as int);
    if s1 == rb {
        return None;
    }
    proof {
        assert(rest.take(s1 - ra) =~= v@.subrange(ra as int, s1 as int));
        assert(rest.skip(s1 - ra + 1) =~= v@.subrange(s1 + 1, rb as int));
    }
    let (sa, sb) = trim_bounds(v, ra, s1);
    let severity = match severity_in_range(v, sa, sb) {
        Some(s) => s,
        None => {
            return None;
        },
    };
    if fa == fb || line_num == 0 || col_num == 0 {
        return None;
    }
    let (ma, mb) = trim_bounds(v, s1 + 1, rb);
    let d = Diagnostic {
        file: string_of_range(v, fa, fb),
        line: line_num,
        column: col_num,
        severity,
        message: string_of_range(v, ma, mb),
    };
    Some(d)
}

/// Parse every diagnostic out of a raw compiler stderr blob, silently
/// skipping the lines that are not diagnostics.
pub fn parse_all(stderr: &str) -> (r: Vec<Diagnostic>)
    ensures
        views(r@) == parse_all_spec(lines(stderr@)),
{
    let v = to_chars(stderr);
    let n = v.len();
    let mut out: Vec<Diagnostic> = Vec::new();
    let mut pos: usize = 0;
    assert(v@.subrange(0, n as int) =~= stderr@);
    while pos < n
        invariant
            pos <= n == v@.len(),
            v@ == stderr@,
            parse_all_spec(lines(stderr@)) == views(out@) + parse_all_spec(
                lines(v@.subrange(pos as int, n as int)),
            ),
        decreases n - pos,
    {
        let (a, b, next) = next_line(&v, pos, n);
        let ghost rest = lines(v@.subrange(next as int, n as int));
        let ghost ls = lines(v@.subrange(pos as int, n as int));
        assert(ls.drop_first() =~= rest);
        let found = parse_line_in(&v, a, b);
        match found {
            Some(d) => {
                let ghost old_out = out@;
                out.push(d);
                assert(views(out@) =~= views(old_out) + seq![d@]);
            },
            None => {},
        }
        pos = next;
    }
    assert(v@.subrange(n as int, n as int) =~= Seq::<char>::empty());
    assert(lines(Seq::<char>::empty()) =~= Seq::<Seq<char>>::empty());
    assert(views(out@) + Seq::<DiagnosticView>::empty() =~= views(out@));
    out
}

// ---------------------------------------------------------------------
// Rendering
// ---------------------------------------------------------------------

pub open spec fn spaces(n: nat) -> Seq<char> {
    Seq::new(n, |i: int| ' ')
}

/// `format!("{:>w$}", s)`: `s` right-aligned in a field of width `w`.
pub open spec fn pad_left(s: Seq<char>, w: nat) -> Seq<char> {
    if s.len() < w {
        spaces((w - s.len()) as nat) + s
    } else {
        s
    }
}

/// Width of the line-number gutter: the digits of the line number, at
/// least 2.
pub open spec fn gutter_of(line: usize) -> nat {
    if decimal(line as nat).len() < 2 {
        2
    } else {
        decimal(line as nat).len()
    }
}

/// The blank under the first `column - 1` characters of `code`, with
/// every tab kept as a tab so that the caret lines up visually.
pub open spec fn caret_padding(code: Seq<char>, column: usize) -> Seq<char> {
    let n = if column == 0 {
        0
    } else {
        column - 1
    };
    let k = if n < code.len() {
        n
    } else {
        code.len() as int
    };
    Seq::new(k as nat, |i: int| if code[i] == '\t' { '\t' } else { ' ' })
}

/// The source line a diagnostic points at: line `line` (1-based; 0 is
/// read as 1) of the file's content, when the content has that many lines.
pub open spec fn source_line(content: Option<Seq<char>>, line: usize) -> Option<Seq<char>> {
    match content {
        Some(c) => {
            let k = if line == 0 {
                0
            } else {
                line - 1
            };
            if k < lines(c).len() {
                Some(lines(c)[k])
            } else {
                None
            }
        },
        None => None,
    }
}

/// The lines printed for one diagnostic, given the content of the file it
/// names (when that file could be read).
pub open spec fn render_spec(d: DiagnosticView, content: Option<Seq<char>>) -> Seq<Seq<char>> {
    let g = gutter_of(d.line);
    let head = seq![
        color_of(d.severity) + BOLD@ + label_of(d.severity) + RESET@ + BOLD@ + ": "@ + d.message
            + RESET@,
        BLUE@ + spaces(g) + RESET@ + " "@ + BLUE@ + "-->"@ + RESET@ + " "@ + d.file + ":"@
            + decimal(d.line as nat) + ":"@ + decimal(d.column as nat),
        BLUE@ + spaces(g) + " |"@ + RESET@,
    ];
    let body = match source_line(content, d.line) {
        Some(code) => seq![
            BLUE@ + pad_left(decimal(d.line as nat), g) + " |"@ + RESET@ + " "@ + code,
            BLUE@ + spaces(g) + " |"@ + RESET@ + " "@ + caret_padding(code, d.column) + color_of(
                d.severity,
            ) + BOLD@ + "^"@ + RESET@,
        ],
        None => seq![],
    };
    head + body + seq![BLUE@ + spaces(g) + " |"@ + RESET@, Seq::<char>::empty()]
}

fn push_spaces(out: &mut String, n: usize)
    ensures
        final(out)@ == old(out)@ + spaces(n as nat),
{
    let mut i: usize = 0;
    while i < n
        invariant
            i <= n,
            out@ == old(out)@ + spaces(i as nat),
        decreases n - i,
    {
        push_char(out, ' ');
        i = i + 1;
        assert(out@ =~= old(out)@ + spaces(i as nat));
    }
}

/// `BLUE + spaces(g) + " |" + RESET`, the empty gutter line.
fn gutter_line(g: usize) -> (r: String)
    ensures
        r@ == BLUE@ + spaces(g as nat) + " |"@ + RESET@,
{
    let mut s = String::new();
    push_str(&mut s, BLUE);
    push_spaces(&mut s, g);
    push_str(&mut s, " |");
    push_str(&mut s, RESET);
    assert(s@ =~= BLUE@ + spaces(g as nat) + " |"@ + RESET@);
    s
}

/// The bounds of line `k` (0-based) of `v`, if it has that many lines.
#[verifier::loop_isolation(false)]
fn nth_line(v: &Vec<char>, k: usize) -> (r: Option<(usize, usize)>)
    ensures
        r matches Some((a, b)) ==> a <= b <= v@.len() && k < lines(v@).len() && lines(v@)[k as int]
            == v@.subrange(a as int, b as int),
        r is None ==> k >= lines(v@).len(),
{
    let n = v.len();
    let mut pos: usize = 0;
    let mut i: usize = 0;
    assert(v@.subrange(0, n as int) =~= v@);
    while pos < n
        invariant
            pos <= n == v@.len(),
            i <= k,
            lines(v@).len() == i + lines(v@.subrange(pos as int, n as int)).len(),
            forall|j: int|
                0 <= j < lines(v@.subrange(pos as int, n as int)).len() ==> lines(v@)[i + j]
                    == lines(v@.subrange(pos as int, n as int))[j],
        decreases n - pos,
    {
        let (a, b, next) = next_line(v, pos, n);
        let ghost ls = lines(v@.subrange(pos as int, n as int));
        let ghost rest = lines(v@.subrange(next as int, n as int));
        assert(ls[0] == v@.subrange(a as int, b as int));
        if i == k {
            assert(lines(v@)[i + 0] == ls[0]);
            return Some((a, b));
        }
        assert forall|j: int| 0 <= j < rest.len() implies lines(v@)[i + 1 + j] == rest[j] by {
            assert(ls[1 + j] == rest[j]);
        }
        i = i + 1;
        pos = next;
    }
    assert(v@.subrange(n as int, n as int) =~= Seq::<char>::empty());
    None
}

/// The lines `print_diagnostic` writes to stderr for `diag`, given the
/// content of the file it names, if that could be read.
pub fn render_diagnostic(diag: &Diagnostic, content: Option<&str>) -> (r: Vec<String>)
    ensures
        r@.map_values(|s: String| s@) == render_spec(
            diag@,
            match content {
                Some(c) => Some(c@),
                None => None,
            },
        ),
{
    let dlen = decimal_len(diag.line);
    let g: usize = if dlen < 2 {
        2
    } else {
        dlen
    };
    let color = diag.severity.color();
    let mut out: Vec<String> = Vec::new();

    let mut l1 = String::new();
    push_str(&mut l1, color);
    push_str(&mut l1, BOLD);
    push_str(&mut l1, diag.severity.label());
    push_str(&mut l1, RESET);
    push_str(&mut l1, BOLD);
    push_str(&mut l1, ": ");
    push_str(&mut l1, diag.message.as_str());
    push_str(&mut l1, RESET);
    out.push(l1);

    let mut l2 = String::new();
    push_str(&mut l2, BLUE);
    push_spaces(&mut l2, g);
    push_str(&mut l2, RESET);
    push_str(&mut l2, " ");
    push_str(&mut l2, BLUE);
    push_str(&mut l2, "-->");
    push_str(&mut l2, RESET);
    push_str(&mut l2, " ");
    push_str(&mut l2, diag.file.as_str());
    push_str(&mut l2, ":");
    push_decimal(&mut l2, diag.line);
    push_str(&mut l2, ":");
    push_decimal(&mut l2, diag.column);
    out.push(l2);

    out.push(gutter_line(g));

    let ghost cv = match content {
        Some(c) => Some(c@),
        None => None::<Seq<char>>,
    };
    match content {
        Some(c) => {
            let v = to_chars(c);
            let k = if diag.line == 0 {
                0
            } else {
                diag.line - 1
            };
            match nth_line(&v, k) {
                Some((a, b)) => {
                    let ghost code = v@.subrange(a as int, b as int);
                    assert(source_line(cv, diag.line) == Some(code));
                    let mut l4 = String::new();
                    push_str(&mut l4, BLUE);
                    if dlen < g {
                        push_spaces(&mut l4, g - dlen);
                    }
                    push_decimal(&mut l4, diag.line);
                    push_str(&mut l4, " |");
                    push_str(&mut l4, RESET);
                    push_str(&mut l4, " ");
                    push_range(&mut l4, &v, a, b);
                    assert(l4@ =~= BLUE@ + pad_left(decimal(diag.line as nat), g as nat) + " |"@
                        + RESET@ + " "@ + code);
                    out.push(l4);

                    let mut l5 = String::new();
                    push_str(&mut l5, BLUE);
                    push_spaces(&mut l5, g);
                    push_str(&mut l5, " |");
                    push_str(&mut l5, RESET);
                    push_str(&mut l5, " ");
                    let pad: usize = if diag.column == 0 {
                        0
                    } else {
                        diag.column - 1
                    };
                    let stop: usize = if pad < b - a {
                        a + pad
                    } else {
                        b
                    };
                    let ghost before = l5@;
                    let mut i = a;
                    while i < stop
                        invariant
                            a <= i <= stop <= b <= v@.len(),
                            l5@ == before + Seq::new(
                                (i - a) as nat,
                                |j: int| if v@[a + j] == '\t' { '\t' } else { ' ' },
                            ),
                        decreases stop - i,
                    {
                        if v[i] == '\t' {
                            push_char(&mut l5, '\t');
                        } else {
                            push_char(&mut l5, ' ');
                        }
                        i = i + 1;
                        assert(l5@ =~= before + Seq::new(
                            (i - a) as nat,
                            |j: int| if v@[a + j] == '\t' { '\t' } else { ' ' },
                        ));
                    }
                    assert(Seq::new(
                        (stop - a) as nat,
                        |j: int| if v@[a + j] == '\t' { '\t' } else { ' ' },
                    ) =~= caret_padding(code, diag.column));
                    push_str(&mut l5, color);
                    push_str(&mut l5, BOLD);
                    push_str(&mut l5, "^");
                    push_str(&mut l5, RESET);
                    out.push(l5);
                },
                None => {
                    assert(source_line(cv, diag.line) is None);
                },
            }
        },
        None => {},
    }
    out.push(gutter_line(g));
    out.push(String::new());
    assert(out@.map_values(|s: String| s@) =~= render_spec(diag@, cv));
    out
}

// ---------------------------------------------------------------------
// Summary
// ---------------------------------------------------------------------

/// How many of `ds` have severity `s`.
pub open spec fn count_severity(ds: Seq<DiagnosticView>, s: Severity) -> nat
    decreases ds.len(),
{
    if ds.len() == 0 {
        0
    } else {
        count_severity(ds.drop_last(), s) + if ds.last().severity == s {
            1nat
        } else {
            0nat
        }
    }
}

/// The `cargo`-style closing line: errors win over warnings; nothing is
/// printed when there are neither.
pub open spec fn summary_spec(ds: Seq<DiagnosticView>) -> Option<Seq<char>> {
    let errors = count_severity(ds, Severity::Error);
    let warnings = count_severity(ds, Severity::Warning);
    if errors > 0 {
        Some(
            BOLD@ + color_of(Severity::Error) + "error"@ + RESET@ + ": could not compile due to "@
                + decimal(errors) + " previous "@ + if errors == 1 {
                "error"@
            } else {
                "errors"@
            },
        )
    } else if warnings > 0 {
        Some(
            BOLD@ + color_of(Severity::Warning) + "warning"@ + RESET@ + ": "@ + decimal(warnings)
                + " "@ + if warnings == 1 {
                "warning"@
            } else {
                "warnings"@
            } + " emitted"@,
        )
    } else {
        None
    }
}

/// Count the diagnostics of severity `s`.
pub fn count_of(diagnostics: &[Diagnostic], s: Severity) -> (r: usize)
    ensures
        r == count_severity(views(diagnostics@), s),
{
    let mut n: usize = 0;
    let mut i: usize = 0;
    while i < diagnostics.len()
        invariant
            i <= diagnostics@.len(),
            n <= i,
            n == count_severity(views(diagnostics@.take(i as int)), s),
        decreases diagnostics.len() - i,
    {
        assert(views(diagnostics@.take(i + 1)).drop_last() =~= views(diagnostics@.take(i as int)));
        if diagnostics[i].severity == s {
            n = n + 1;
        }
        i = i + 1;
    }
    assert(diagnostics@.take(i as int) =~= diagnostics@);
    n
}

/// The closing line `print_summary` writes after all diagnostics
/// (`error: could not compile due to 3 previous errors`, or the warning
/// count), or `None` when there is neither an error nor a warning.
pub fn summary_line(diagnostics: &[Diagnostic]) -> (r: Option<String>)
    ensures
        match r {
            Some(s) => summary_spec(views(diagnostics@)) == Some(s@),
            None => summary_spec(views(diagnostics@)) is None,
        },
{
    let errors = count_of(diagnostics, Severity::Error);
    let warnings = count_of(diagnostics, Severity::Warning);
    if errors > 0 {
        let mut s = String::new();
        push_str(&mut s, BOLD);
        push_str(&mut s, Severity::Error.color());
        push_str(&mut s, "error");
        push_str(&mut s, RESET);
        push_str(&mut s, ": could not compile due to ");
        push_decimal(&mut s, errors);
        push_str(&mut s, " previous ");
        if errors == 1 {
            push_str(&mut s, "error");
        } else {
            push_str(&mut s, "errors");
        }
        Some(s)
    } else if warnings > 0 {
        let mut s = String::new();
        push_str(&mut s, BOLD);
        push_str(&mut s, Severity::Warning.color());
        push_str(&mut s, "warning");
        push_str(&mut s, RESET);
        push_str(&mut s, ": ");
        push_decimal(&mut s, warnings);
        push_str(&mut s, " ");
        if warnings == 1 {
            push_str(&mut s, "warning");
        } else {
            push_str(&mut s, "warnings");
        }
        push_str(&mut s, " emitted");
        Some(s)
    } else {
        None
    }
}

// ---------------------------------------------------------------------
// Everything at once
// ---------------------------------------------------------------------

pub open spec fn opt_str_view(o: Option<String>) -> Option<Seq<char>> {
    match o {
        Some(s) => Some(s@),
        None => None,
    }
}

/// The lines of each diagnostic in turn, `contents[i]` being the content
/// of the file that `ds[i]` names, when it could be read.
pub open spec fn rendered_lines(ds: Seq<DiagnosticView>, contents: Seq<Option<Seq<char>>>) -> Seq<
    Seq<char>,
>
    decreases ds.len(),
{
    if ds.len() == 0 {
        seq![]
    } else {
        rendered_lines(ds.drop_last(), contents) + render_spec(
            ds.last(),
            contents[ds.len() - 1],
        )
    }
}

/// What `print_all` writes: every diagnostic, then the summary line when
/// there is one.
pub open spec fn render_all_spec(ds: Seq<DiagnosticView>, contents: Seq<Option<Seq<char>>>) -> Seq<
    Seq<char>,
> {
    rendered_lines(ds, contents) + match summary_spec(ds) {
        Some(l) => seq![l],
        None => seq![],
    }
}

/// The lines `print_all` writes to stderr for `diagnostics`, given the
/// content of the file each one names (`None` where it could not be read).
pub fn render_all(diagnostics: &[Diagnostic], contents: &Vec<Option<String>>) -> (r: Vec<String>)
    requires
        contents@.len() == diagnostics@.len(),
    ensures
        r@.map_values(|s: String| s@) == render_all_spec(
            views(diagnostics@),
            contents@.map_values(|o: Option<String>| opt_str_view(o)),
        ),
{
    let ghost cs = contents@.map_values(|o: Option<String>| opt_str_view(o));
    let mut out: Vec<String> = Vec::new();
    let mut i: usize = 0;
    while i < diagnostics.len()
        invariant
            i <= diagnostics@.len() == contents@.len(),
            cs == contents@.map_values(|o: Option<String>| opt_str_view(o)),
            out@.map_values(|s: String| s@) == rendered_lines(views(diagnostics@.take(i as int)), cs),
        decreases diagnostics.len() - i,
    {
        let content: Option<&str> = match &contents[i] {
            Some(c) => Some(c.as_str()),
            None => None,
        };
        let mut lines = render_diagnostic(&diagnostics[i], content);
        let ghost before = out@;
        let ghost added = lines@;
        out.append(&mut lines);
        assert(out@.map_values(|s: String| s@) =~= before.map_values(|s: String| s@)
            + added.map_values(|s: String| s@));
        let ghost ds = views(diagnostics@.take(i + 1));
        assert(ds.drop_last() =~= views(diagnostics@.take(i as int)));
        assert(ds.last() == diagnostics@[i as int]@);
        assert(cs[ds.len() - 1] == opt_str_view(contents@[i as int]));
        i = i + 1;
    }
    assert(diagnostics@.take(i as int) =~= diagnostics@);
    let ghost body = out@.map_values(|s: String| s@);
    match summary_line(diagnostics) {
        Some(l) => {
            out.push(l);
        },
        None => {},
    }
    assert(out@.map_values(|s: String| s@) =~= render_all_spec(views(diagnostics@), cs));
    out
}

// ---------------------------------------------------------------------
// Laws
// ---------------------------------------------------------------------

/// The label of a severity parses back to that severity.
pub proof fn law_severity_label_round_trip(s: Severity)
    ensures
        severity_of(trim(label_of(s))) == Some(s),
        label_of(s).len() > 0,
        !label_of(s).contains(':'),
        !is_ws(label_of(s)[0]),
        !is_ws(label_of(s).last()),
{
    reveal_strlit("error");
    reveal_strlit("warning");
    reveal_strlit("note");
    reveal_strlit("fatal error");
    let l = label_of(s);
    assert(l.len() > 0);
    assert forall|i: int| 0 <= i < l.len() implies l[i] != ':' by {}
    lemma_trim_id(l);
}

/// The header line of a rendered diagnostic announces the diagnostic's
/// own severity: after the severity's color and the bold code, it reads the
/// severity's word (the word [`Severity::parse`] reads back as that very
/// severity), and then, after the reset and bold codes and `": "`, the
/// message itself; the line is closed by a reset. This holds whether or
/// not the source line could be shown.
pub proof fn law_render_header_names_severity(d: DiagnosticView, content: Option<Seq<char>>)
    ensures
        ({
            let first = render_spec(d, content)[0];
            let p = (color_of(d.severity).len() + BOLD@.len()) as int;
            let w = label_of(d.severity).len() as int;
            let q = p + w + RESET@.len() + BOLD@.len() + 2;
            let m = d.message.len() as int;
            &&& render_spec(d, content).len() >= 5
            &&& first.subrange(0, color_of(d.severity).len() as int) == color_of(d.severity)
            &&& severity_of(first.subrange(p, p + w)) == Some(d.severity)
            &&& first.subrange(q, q + m) == d.message
            &&& first.subrange(q + m, first.len() as int) == RESET@
        }),
{
    law_severity_label_round_trip(d.severity);
    let l = label_of(d.severity);
    lemma_trim_id(l);
    let c = color_of(d.severity);
    let first = render_spec(d, content)[0];
    let p = (c.len() + BOLD@.len()) as int;
    let w = l.len() as int;
    let q = p + w + RESET@.len() + BOLD@.len() + 2;
    let m = d.message.len() as int;
    assert(first =~= c + BOLD@ + l + RESET@ + BOLD@ + ": "@ + d.message + RESET@);
    assert(": "@.len() == 2) by {
        reveal_strlit(": ");
    }
    assert(first.subrange(0, c.len() as int) =~= c);
    assert(first.subrange(p, p + w) =~= l);
    assert(first.subrange(q, q + m) =~= d.message);
    assert(first.subrange(q + m, first.len() as int) =~= RESET@);
}

/// A diagnostic written out in gcc/clang's own single-line format.
pub open spec fn gcc_line(d: DiagnosticView) -> Seq<char> {
    d.file + seq![':'] + decimal(d.line as nat) + seq![':'] + decimal(d.column as nat) + seq![
        ':',
        ' ',
    ] + label_of(d.severity) + seq![':', ' '] + d.message
}

/// Reading back a diagnostic written in gcc/clang's format gives the same
/// diagnostic, whenever such a line can carry it: a non-empty file name
/// without `:` or surrounding whitespace, line and column from 1, and a
/// message without surrounding whitespace.
pub proof fn law_parse_gcc_line(d: DiagnosticView)
    requires
        d.file.len() > 0,
        !d.file.contains(':'),
        trim(d.file) == d.file,
        d.line > 0,
        d.column > 0,
        trim(d.message) == d.message,
    ensures
        parse_line_spec(gcc_line(d)) == Some(d),
{
    let f = d.file;
    let a = decimal(d.line as nat);
    let b = decimal(d.column as nat);
    let lab = label_of(d.severity);
    let m = d.message;
    let x = lab + seq![':', ' '] + m;
    let r = seq![' '] + x;
    lemma_parse_decimal(d.line);
    lemma_parse_decimal(d.column);
    law_severity_label_round_trip(d.severity);
    assert(!a.contains(':')) by {
        if a.contains(':') {
            let i = choose|i: int| 0 <= i < a.len() && a[i] == ':';
            assert(is_digit(a[i]));
        }
    }
    assert(!b.contains(':')) by {
        if b.contains(':') {
            let i = choose|i: int| 0 <= i < b.len() && b[i] == ':';
            assert(is_digit(b[i]));
        }
    }
    let l = gcc_line(d);
    let rest2 = b + seq![':'] + r;
    let rest1 = a + seq![':'] + rest2;
    assert(l =~= f + seq![':'] + rest1);
    lemma_split_once_at(f, ':', rest1);
    lemma_split_once_at(a, ':', rest2);
    lemma_split_once_at(b, ':', r);
    assert(splitn(r, 1, ':') == seq![r]);
    assert(splitn(rest2, 2, ':') == seq![b] + seq![r]);
    assert(splitn(rest1, 3, ':') == seq![a] + (seq![b] + seq![r]));
    assert(splitn(l, 4, ':') =~= seq![f, a, b, r]);
    lemma_trim_leading_ws(' ', x);
    assert(!lab.contains(':'));
    if m.len() > 0 {
        lemma_trimmed_ends(m);
        assert(x[0] == lab[0]);
        assert(x.last() == m.last());
        lemma_trim_id(x);
        assert(x =~= lab + seq![':'] + (seq![' '] + m));
        lemma_split_once_at(lab, ':', seq![' '] + m);
        lemma_trim_leading_ws(' ', m);
    } else {
        let y = lab + seq![':'];
        assert(x =~= y + seq![' ']);
        assert(y[0] == lab[0]);
        lemma_trim_trailing_ws(y, ' ');
        assert(trim_end(y) == y);
        assert(y =~= lab + seq![':'] + Seq::<char>::empty());
        lemma_split_once_at(lab, ':', Seq::<char>::empty());
        lemma_trim_id(Seq::<char>::empty());
        assert(m =~= Seq::<char>::empty());
    }
}

} // verus!

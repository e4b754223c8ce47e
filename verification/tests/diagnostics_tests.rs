use smidr::diagnostics::{
    count_of, parse_all, render_all, render_diagnostic, summary_line, Diagnostic, Severity, BLUE, BOLD, RESET,
};

fn diag(file: &str, line: usize, column: usize, severity: Severity, message: &str) -> Diagnostic {
    Diagnostic {
        file: file.to_string(),
        line,
        column,
        severity,
        message: message.to_string(),
    }
}

#[test]
fn parse_line_gcc_error() {
    let d = Diagnostic::parse_line("src/main.c:10:5: error: expected ';' before '}' token").unwrap();
    assert_eq!(d.file, "src/main.c");
    assert_eq!(d.line, 10);
    assert_eq!(d.column, 5);
    assert_eq!(d.severity, Severity::Error);
    assert_eq!(d.message, "expected ';' before '}' token");
}

#[test]
fn parse_line_fatal_error_keeps_colons_in_message() {
    let d = Diagnostic::parse_line("a.c:3:10: fatal error: foo.h: No such file or directory").unwrap();
    assert_eq!(d.file, "a.c");
    assert_eq!(d.line, 3);
    assert_eq!(d.column, 10);
    assert_eq!(d.severity, Severity::Error);
    assert_eq!(d.message, "foo.h: No such file or directory");
}

#[test]
fn parse_line_warning_and_note() {
    let w = Diagnostic::parse_line("lib.c:7:1: warning: unused variable 'x' [-Wunused-variable]").unwrap();
    assert_eq!(w.severity, Severity::Warning);
    assert_eq!(w.message, "unused variable 'x' [-Wunused-variable]");
    let n = Diagnostic::parse_line("lib.c:2:5: note: declared here").unwrap();
    assert_eq!(n.severity, Severity::Note);
    assert_eq!(n.line, 2);
    assert_eq!(n.column, 5);
}

#[test]
fn parse_line_trims_fields() {
    let d = Diagnostic::parse_line("  x.c : 4 : 2 :  warning :  spaced out  ").unwrap();
    assert_eq!(d.file, "x.c");
    assert_eq!(d.line, 4);
    assert_eq!(d.column, 2);
    assert_eq!(d.severity, Severity::Warning);
    assert_eq!(d.message, "spaced out");
}

#[test]
fn parse_line_accepts_plus_sign_like_usize_parse() {
    let d = Diagnostic::parse_line("x.c:+12:3: error: e").unwrap();
    assert_eq!(d.line, 12);
}

#[test]
fn parse_line_rejects_non_diagnostics() {
    assert!(Diagnostic::parse_line("In file included from main.c:1:").is_none());
    assert!(Diagnostic::parse_line("").is_none());
    assert!(Diagnostic::parse_line("    int x = ;").is_none());
    assert!(Diagnostic::parse_line("      |         ^").is_none());
    assert!(Diagnostic::parse_line("main.c: In function 'main':").is_none());
    assert!(Diagnostic::parse_line("a.c:x:1: error: e").is_none());
    assert!(Diagnostic::parse_line("a.c:1:y: error: e").is_none());
    assert!(Diagnostic::parse_line("a.c:1:2: info: e").is_none());
    assert!(Diagnostic::parse_line("a.c:1:2: error no colon").is_none());
}

#[test]
fn parse_line_rejects_empty_file_and_zero_positions() {
    assert!(Diagnostic::parse_line(":1:1: error: e").is_none());
    assert!(Diagnostic::parse_line("a.c:0:1: error: e").is_none());
    assert!(Diagnostic::parse_line("a.c:1:0: error: e").is_none());
}

#[test]
fn parse_line_rejects_overflowing_numbers() {
    assert!(Diagnostic::parse_line("a.c:99999999999999999999999:1: error: e").is_none());
}

#[test]
fn parse_all_skips_other_lines() {
    let stderr = "main.c: In function 'main':\n\
                  main.c:4:5: warning: unused variable 'y'\n\
                  \x20   4 |     int y;\n\
                  main.c:6:12: error: expected ';'\r\n\
                  main.c:1:1: note: here\n";
    let ds = parse_all(stderr);
    assert_eq!(ds.len(), 3);
    assert_eq!(ds[0].severity, Severity::Warning);
    assert_eq!(ds[0].line, 4);
    assert_eq!(ds[1].severity, Severity::Error);
    assert_eq!(ds[1].message, "expected ';'");
    assert_eq!(ds[1].column, 12);
    assert_eq!(ds[2].severity, Severity::Note);
}

#[test]
fn parse_all_of_empty_text() {
    assert!(parse_all("").is_empty());
    assert!(parse_all("\n\n").is_empty());
}

#[test]
fn severity_parse_words() {
    assert_eq!(Severity::parse("error"), Some(Severity::Error));
    assert_eq!(Severity::parse(" fatal error "), Some(Severity::Error));
    assert_eq!(Severity::parse("\twarning"), Some(Severity::Warning));
    assert_eq!(Severity::parse("note"), Some(Severity::Note));
    assert_eq!(Severity::parse("Error"), None);
    assert_eq!(Severity::parse("fatal  error"), None);
    assert_eq!(Severity::parse(""), None);
}

#[test]
fn severity_colors_and_labels() {
    assert_eq!(Severity::Error.color(), "\x1b[1;91m");
    assert_eq!(Severity::Warning.color(), "\x1b[1;93m");
    assert_eq!(Severity::Note.color(), "\x1b[1;96m");
    assert_eq!(Severity::Error.label(), "error");
    assert_eq!(Severity::Warning.label(), "warning");
    assert_eq!(Severity::Note.label(), "note");
}

#[test]
fn render_with_source_line_and_tab_padding() {
    let d = diag("a.c", 2, 3, Severity::Error, "boom");
    let lines = render_diagnostic(&d, Some("int x;\n\tfoo();\n"));
    let red = "\x1b[1;91m";
    assert_eq!(lines.len(), 7);
    assert_eq!(lines[0], format!("{red}{BOLD}error{RESET}{BOLD}: boom{RESET}"));
    assert_eq!(lines[1], format!("{BLUE}  {RESET} {BLUE}-->{RESET} a.c:2:3"));
    assert_eq!(lines[2], format!("{BLUE}   |{RESET}"));
    assert_eq!(lines[3], format!("{BLUE} 2 |{RESET} \tfoo();"));
    assert_eq!(lines[4], format!("{BLUE}   |{RESET} \t {red}{BOLD}^{RESET}"));
    assert_eq!(lines[5], format!("{BLUE}   |{RESET}"));
    assert_eq!(lines[6], "");
}

#[test]
fn render_without_content_or_past_end() {
    let d = diag("b.c", 120, 1, Severity::Warning, "w");
    let no_file = render_diagnostic(&d, None);
    assert_eq!(no_file.len(), 5);
    assert_eq!(no_file[1], format!("{BLUE}   {RESET} {BLUE}-->{RESET} b.c:120:1"));
    assert_eq!(no_file[2], format!("{BLUE}    |{RESET}"));
    assert_eq!(no_file[4], "");
    let short_file = render_diagnostic(&d, Some("one line\n"));
    assert_eq!(short_file.len(), 5);
}

#[test]
fn render_caret_clamped_to_line_length() {
    let d = diag("c.c", 1, 50, Severity::Note, "n");
    let lines = render_diagnostic(&d, Some("ab"));
    let cyan = "\x1b[1;96m";
    assert_eq!(lines[3], format!("{BLUE} 1 |{RESET} ab"));
    assert_eq!(lines[4], format!("{BLUE}   |{RESET}   {cyan}{BOLD}^{RESET}"));
}

#[test]
fn summary_counts_errors_first() {
    let ds = vec![
        diag("a.c", 1, 1, Severity::Warning, "w"),
        diag("a.c", 2, 1, Severity::Error, "e1"),
        diag("a.c", 3, 1, Severity::Error, "e2"),
        diag("a.c", 4, 1, Severity::Note, "n"),
    ];
    assert_eq!(count_of(&ds, Severity::Error), 2);
    assert_eq!(count_of(&ds, Severity::Warning), 1);
    assert_eq!(count_of(&ds, Severity::Note), 1);
    let red = "\x1b[1;91m";
    assert_eq!(
        summary_line(&ds),
        Some(format!("{BOLD}{red}error{RESET}: could not compile due to 2 previous errors"))
    );
}

#[test]
fn summary_singular_and_warnings() {
    let red = "\x1b[1;91m";
    let yellow = "\x1b[1;93m";
    let one_error = vec![diag("a.c", 1, 1, Severity::Error, "e")];
    assert_eq!(
        summary_line(&one_error),
        Some(format!("{BOLD}{red}error{RESET}: could not compile due to 1 previous error"))
    );
    let one_warning = vec![diag("a.c", 1, 1, Severity::Warning, "w")];
    assert_eq!(
        summary_line(&one_warning),
        Some(format!("{BOLD}{yellow}warning{RESET}: 1 warning emitted"))
    );
    let warnings = vec![
        diag("a.c", 1, 1, Severity::Warning, "w"),
        diag("a.c", 2, 1, Severity::Warning, "w"),
        diag("a.c", 3, 1, Severity::Warning, "w"),
    ];
    assert_eq!(
        summary_line(&warnings),
        Some(format!("{BOLD}{yellow}warning{RESET}: 3 warnings emitted"))
    );
}

#[test]
fn summary_absent_without_errors_or_warnings() {
    assert_eq!(summary_line(&[]), None);
    let notes = vec![diag("a.c", 1, 1, Severity::Note, "n")];
    assert_eq!(summary_line(&notes), None);
}

#[test]
fn parse_then_render_round_trip() {
    let d = Diagnostic::parse_line("dir/x.c:12:4: warning: careful").unwrap();
    let lines = render_diagnostic(&d, None);
    assert_eq!(lines[1], format!("{BLUE}  {RESET} {BLUE}-->{RESET} dir/x.c:12:4"));
}

#[test]
fn render_all_lists_each_then_summary() {
    let ds = vec![
        diag("a.c", 1, 2, Severity::Warning, "w"),
        diag("b.c", 3, 1, Severity::Error, "e"),
    ];
    let contents = vec![Some("int a;\n".to_string()), None];
    let lines = render_all(&ds, &contents);
    let first = render_diagnostic(&ds[0], Some("int a;\n"));
    let second = render_diagnostic(&ds[1], None);
    assert_eq!(lines.len(), first.len() + second.len() + 1);
    assert_eq!(lines[..first.len()].to_vec(), first);
    assert_eq!(lines[first.len()..first.len() + second.len()].to_vec(), second);
    assert_eq!(Some(lines[lines.len() - 1].clone()), summary_line(&ds));
    let notes = vec![diag("n.c", 1, 1, Severity::Note, "n")];
    assert_eq!(render_all(&notes, &vec![None]).len(), 5);
}

#[test]
fn gcc_formatted_line_parses_back() {
    let cases = [
        diag("src/main.c", 10, 5, Severity::Error, "expected ';' before '}' token"),
        diag("lib/x y.c", 1, 1, Severity::Warning, "a: b: c"),
        diag("n.c", 123456, 78, Severity::Note, ""),
    ];
    for d in cases {
        let line = format!("{}:{}:{}: {}: {}", d.file, d.line, d.column, d.severity.label(), d.message);
        let back = Diagnostic::parse_line(&line).unwrap();
        assert_eq!(back.file, d.file);
        assert_eq!(back.line, d.line);
        assert_eq!(back.column, d.column);
        assert_eq!(back.severity, d.severity);
        assert_eq!(back.message, d.message);
    }
}

#[test]
fn severity_labels_parse_back() {
    for s in [Severity::Error, Severity::Warning, Severity::Note] {
        assert_eq!(Severity::parse(s.label()), Some(s));
    }
}

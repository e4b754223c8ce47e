use smidr::text::{
    compare_str, decimal_len, parse_usize_range, push_decimal, replace, split_whitespace,
    strip_prefix_of, to_chars, trimmed,
};

#[test]
fn replace_every_occurrence() {
    assert_eq!(
        replace("make PREFIX=$SMIDR_PREFIX && cp x $SMIDR_PREFIX/lib", "$SMIDR_PREFIX", "/p"),
        "make PREFIX=/p && cp x /p/lib"
    );
    assert_eq!(replace("aaa", "aa", "b"), "ba");
    assert_eq!(replace("nothing here", "$X", "y"), "nothing here");
    assert_eq!(replace("", "a", "b"), "");
}

#[test]
fn split_on_whitespace_runs() {
    assert_eq!(split_whitespace("  -I/usr/include\t-DX  \n"), vec!["-I/usr/include", "-DX"]);
    assert!(split_whitespace("   ").is_empty());
    assert!(split_whitespace("").is_empty());
    assert_eq!(split_whitespace("-lz"), vec!["-lz"]);
}

#[test]
fn trimming() {
    assert_eq!(trimmed("  hi there \r\n"), "hi there");
    assert_eq!(trimmed(""), "");
    assert_eq!(trimmed("\u{3000}x\u{a0}"), "x");
}

#[test]
fn string_order_matches_std() {
    let pairs = [("a", "b"), ("a", "ab"), ("Z", "a"), ("", "x"), ("same", "same"), ("b", "a")];
    for (a, b) in pairs {
        let expected: i8 = match a.cmp(b) {
            std::cmp::Ordering::Less => -1,
            std::cmp::Ordering::Equal => 0,
            std::cmp::Ordering::Greater => 1,
        };
        assert_eq!(compare_str(a, b), expected, "{a} vs {b}");
    }
}

#[test]
fn prefix_stripping_and_concat() {
    assert_eq!(strip_prefix_of("-I/usr/include", "-I"), Some("/usr/include".to_string()));
    assert_eq!(strip_prefix_of("-lz", "-I"), None);
    assert_eq!(strip_prefix_of("-I", "-I"), Some(String::new()));
    assert_eq!(smidr::text::str_concat("lib", "foo"), "libfoo");
}

#[test]
fn decimal_rendering() {
    let mut s = String::from("n=");
    push_decimal(&mut s, 0);
    assert_eq!(s, "n=0");
    let mut t = String::new();
    push_decimal(&mut t, 1234567);
    assert_eq!(t, "1234567");
    assert_eq!(decimal_len(0), 1);
    assert_eq!(decimal_len(9), 1);
    assert_eq!(decimal_len(10), 2);
    assert_eq!(decimal_len(120), 3);
}

#[test]
fn usize_parsing_on_ranges() {
    let v = to_chars("x:+42:007:abc:");
    assert_eq!(parse_usize_range(&v, 2, 5), Some(42));
    assert_eq!(parse_usize_range(&v, 6, 9), Some(7));
    assert_eq!(parse_usize_range(&v, 10, 13), None);
    assert_eq!(parse_usize_range(&v, 2, 2), None);
    assert_eq!(parse_usize_range(&v, 2, 3), None);
    let big = to_chars("18446744073709551616");
    assert_eq!(parse_usize_range(&big, 0, big.len()), "18446744073709551616".parse::<usize>().ok());
}

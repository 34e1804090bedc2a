use zeroclaw::decimal::{decimal_text, parse_u64};
use zeroclaw::text::{
    adjoin, eq_ignore_ascii_case, is_whitespace, join, rsplit_once, same_text, strip_prefix, trim,
    trim_end_of,
};

#[test]
fn white_space_is_that_of_unicode() {
    for n in 0..=0x10ffffu32 {
        if let Some(c) = char::from_u32(n) {
            assert_eq!(is_whitespace(c), c.is_whitespace(), "{:x}", n);
        }
    }
}

#[test]
fn trimming() {
    for s in ["", " ", " a b\t", "\u{2003}\u{e9} \u{3000}", "x", "\u{feff}x\u{200b}"] {
        assert_eq!(trim(s), s.trim());
    }
    for s in ["", "/", "a//", "/a/b/", "///", "\u{e9}/"] {
        assert_eq!(trim_end_of(s, '/'), s.trim_end_matches('/'));
    }
}

#[test]
fn comparing() {
    assert!(same_text("\u{e9}a", "\u{e9}a"));
    assert!(!same_text("\u{e9}a", "e\u{301}a"));
    assert!(!same_text("a", "ab"));
    for (a, b) in [
        ("abC-1", "ABc-1"),
        ("\u{e9}", "\u{c9}"),
        ("k", "\u{212a}"),
        ("", ""),
        ("a", "ab"),
        ("[", "{"),
        ("@", "`"),
        ("Z", "z"),
    ] {
        assert_eq!(eq_ignore_ascii_case(a, b), a.eq_ignore_ascii_case(b));
    }
}

#[test]
fn splitting() {
    for s in ["", "#", "a#b", "a#b#c", "ab", "\u{e9}#\u{fc}", "#x"] {
        assert_eq!(rsplit_once(s, '#'), s.rsplit_once('#'));
    }
    for (s, p) in [("sha256=x", "sha256="), ("sha256", "sha256="), ("", ""), ("\u{e9}x", "\u{e9}")] {
        assert_eq!(strip_prefix(s, p), s.strip_prefix(p));
    }
}

#[test]
fn joining() {
    assert_eq!(join(&vec![], "-"), "");
    assert_eq!(join(&vec!["a".to_string()], "-"), "a");
    assert_eq!(
        join(&vec!["a".to_string(), "".to_string(), "b".to_string()], "-"),
        "a--b"
    );
    assert_eq!(adjoin("a", "b"), "ab");
}

#[test]
fn numbers_are_read_as_std_reads_them() {
    for s in [
        "", "+", "-", "0", "007", "+42", "++1", "-0", "-1", "4 2", " 42", "42 ", "4_2", "x",
        "18446744073709551615", "18446744073709551616", "99999999999999999999", "\u{0661}",
        "00000000000000000000000000001", "1844674407370955161x", "1e3", "+18446744073709551615",
    ] {
        assert_eq!(parse_u64(s), s.parse::<u64>().ok(), "{}", s);
    }
}

#[test]
fn numbers_are_written_and_read_back() {
    for n in [0, 1, 9, 10, 99, 100, 2079, 12345, u64::MAX - 1, u64::MAX] {
        assert_eq!(decimal_text(n), n.to_string());
        assert_eq!(parse_u64(&decimal_text(n)), Some(n));
    }
}

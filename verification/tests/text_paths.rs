use mac_cleaner::paths::join;
use mac_cleaner::text::{
    ends_with, is_delete_confirmation, is_whitespace, is_yes, same_text, starts_with,
    strip_suffixes_str, trim_str,
};

#[test]
fn trim_removes_unicode_whitespace_on_both_sides() {
    assert_eq!(trim_str("  y\n"), "y");
    assert_eq!(trim_str("\t\u{3000}abc \u{2009}"), "abc");
    assert_eq!(trim_str("   "), "");
    assert_eq!(trim_str(""), "");
    assert_eq!(trim_str("a b"), "a b");
}

#[test]
fn whitespace_follows_the_unicode_property() {
    for c in ['\t', '\n', '\u{0B}', '\u{0C}', '\r', ' ', '\u{85}', '\u{A0}', '\u{1680}', '\u{2000}', '\u{200A}', '\u{2028}', '\u{2029}', '\u{202F}', '\u{205F}', '\u{3000}'] {
        assert!(is_whitespace(c), "{:?}", c);
        assert_eq!(is_whitespace(c), c.is_whitespace());
    }
    for c in ['a', '0', '\u{200B}', '\u{FEFF}', '_'] {
        assert!(!is_whitespace(c), "{:?}", c);
        assert_eq!(is_whitespace(c), c.is_whitespace());
    }
}

#[test]
fn yes_answers() {
    assert!(is_yes("y\n"));
    assert!(is_yes("Y\n"));
    assert!(is_yes("  y  "));
    assert!(!is_yes("yes\n"));
    assert!(!is_yes("n\n"));
    assert!(!is_yes("\n"));
    assert!(!is_yes(""));
}

#[test]
fn delete_confirmation_is_exact() {
    assert!(is_delete_confirmation("DELETE\n"));
    assert!(is_delete_confirmation(" DELETE "));
    assert!(!is_delete_confirmation("delete\n"));
    assert!(!is_delete_confirmation("DELETE!\n"));
    assert!(!is_delete_confirmation(""));
}

#[test]
fn prefix_suffix_and_equality() {
    assert!(starts_with("Install macOS Sonoma.app", "Install macOS"));
    assert!(!starts_with("Install", "Install macOS"));
    assert!(ends_with("Install macOS Sonoma.app", ".app"));
    assert!(!ends_with("app", ".app"));
    assert!(starts_with("x", ""));
    assert!(same_text("abc", "abc"));
    assert!(!same_text("abc", "abd"));
    assert!(!same_text("ab", "abc"));
}

#[test]
fn strip_suffixes_removes_every_trailing_repetition() {
    assert_eq!(strip_suffixes_str("Install macOS Sonoma.app", ".app"), "Install macOS Sonoma");
    assert_eq!(strip_suffixes_str("x.app.app", ".app"), "x");
    assert_eq!(strip_suffixes_str(".app", ".app"), "");
    assert_eq!(strip_suffixes_str("x.ap", ".app"), "x.ap");
    assert_eq!(strip_suffixes_str("abc", ""), "abc");
    assert_eq!(strip_suffixes_str("x.app.app", ".app"), "x.app.app".trim_end_matches(".app"));
}

#[test]
fn join_extends_paths_like_unix() {
    assert_eq!(join("/Users/me", "Library/Caches"), "/Users/me/Library/Caches");
    assert_eq!(join("/Users/me/", "Library/Caches"), "/Users/me/Library/Caches");
    assert_eq!(join("", "Library"), "Library");
    assert_eq!(join("/Users/me", "/Library"), "/Library");
    for (b, r) in [("/Users/me", ".Trash"), ("/", "x"), ("a/b", "c/d"), ("", "/abs"), ("x/", "")] {
        assert_eq!(
            join(b, r),
            std::path::Path::new(b).join(r).to_string_lossy().to_string()
        );
    }
}

#[test]
fn yes_matches_lowercase_y_for_every_char() {
    for v in 0u32..0x110000 {
        if let Some(c) = char::from_u32(v) {
            let s = format!(" {}\n", c);
            assert_eq!(is_yes(&s), s.trim().to_lowercase() == "y", "{:?}", c);
        }
    }
}

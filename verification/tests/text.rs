use flint::text::{
    contains, decimal_text, ends_with, equal_ignoring_case, find, lines, parse_u64, replace, split,
    strip_prefix, tail_after, take_digits, trim, trim_leading, trim_of, Class,
};

#[test]
fn trimming() {
    assert_eq!(trim("\u{85}\t a b \u{2003}\n"), "a b");
    assert_eq!(trim("   "), "");
    assert_eq!(trim_of("\"\"a\"b\"", Class::Only('"')), "a\"b");
    assert_eq!(trim_leading("ababc", "ab"), "c");
}

#[test]
fn searching() {
    assert_eq!(find("äöü", "ü"), Some(2));
    assert_eq!(find("aab", "ab"), Some(1));
    assert_eq!(find("", "a"), None);
    assert_eq!(find("abc", ""), Some(0));
    assert!(contains("xyz", "yz") && !contains("xyz", "zy"));
    assert!(ends_with("a.xz", ".xz") && !ends_with("xz", ".xz"));
    assert_eq!(strip_prefix("/dev/disk2", "/dev/disk"), Some("2"));
}

#[test]
fn cutting() {
    assert_eq!(split("a,,b,", ','), vec!["a", "", "b", ""]);
    assert_eq!(split("", ','), vec![""]);
    assert_eq!(lines("a\r\n\nb\r"), vec!["a", "", "b\r"]);
    assert_eq!(lines("a\n"), vec!["a"]);
    assert_eq!(lines("").len(), 0);
    assert_eq!(tail_after("a/b/c", '/'), "c");
    assert_eq!(take_digits("12s1"), "12");
    assert_eq!(replace("aaxaa", "a", "bc"), "bcbcxbcbc");
}

#[test]
fn numbers() {
    assert_eq!(parse_u64("18446744073709551615"), Some(u64::MAX));
    assert_eq!(parse_u64("18446744073709551616"), None);
    assert_eq!(parse_u64("000000000000000000000007"), Some(7));
    assert_eq!(parse_u64("+"), None);
    assert_eq!(parse_u64("-1"), None);
    assert_eq!(parse_u64(""), None);
    for n in [0, 9, 10, 12345678, u64::MAX] {
        assert_eq!(parse_u64(&decimal_text(n)), Some(n));
    }
}

#[test]
fn letter_case() {
    assert!(equal_ignoring_case("DaRk", "dark"));
    assert!(!equal_ignoring_case("Ä", "ä"));
    assert!(!equal_ignoring_case("dar", "dark"));
}

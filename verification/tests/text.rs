use distrust::text::{
    contains, from_chars, matches_at, push_chars, push_decimal, same, same_str, starts_with,
    to_chars, trim, trim_text,
};

fn chars(s: &str) -> Vec<char> {
    s.chars().collect()
}

fn listed_white_space(c: char) -> bool {
    matches!(
        c as u32,
        0x09..=0x0d
            | 0x20
            | 0x85
            | 0xa0
            | 0x1680
            | 0x2000..=0x200a
            | 0x2028
            | 0x2029
            | 0x202f
            | 0x205f
            | 0x3000
    )
}

#[test]
fn trim_removes_white_space_at_both_ends_only() {
    assert_eq!(trim_text(""), "");
    assert_eq!(trim_text("   "), "");
    assert_eq!(trim_text(" a b "), "a b");
    assert_eq!(trim_text("\t\n\u{b}\u{c}\r x\u{1680}\u{2000}\u{200a}\u{2028}\u{2029}"), "x");
    assert_eq!(trim_text("\u{202f}\u{205f}\u{3000}y\u{85}\u{a0}"), "y");
    assert_eq!(trim_text("\u{200b}z\u{feff}"), "\u{200b}z\u{feff}");
    assert_eq!(trim_text("\u{8}q\u{e}"), "\u{8}q\u{e}");
    assert_eq!(trim_text("no-space"), "no-space");
}

#[test]
fn white_space_is_the_listed_set() {
    let mut count = 0;
    for u in 0..=0x10ffffu32 {
        if let Some(c) = char::from_u32(u) {
            assert_eq!(c.is_whitespace(), listed_white_space(c), "U+{:04X}", u);
            let kept = trim_text(&format!("{}x{}", c, c));
            if listed_white_space(c) {
                count += 1;
                assert_eq!(kept, "x", "U+{:04X}", u);
            } else {
                assert_eq!(kept.chars().count(), 3, "U+{:04X}", u);
            }
        }
    }
    assert_eq!(count, 25);
}

#[test]
fn trim_on_characters() {
    assert_eq!(trim(&chars("  a  b \n")), chars("a  b"));
    assert_eq!(trim(&chars("")), chars(""));
    assert_eq!(trim(&chars(" \t ")), chars(""));
    assert_eq!(trim(&chars("x")), chars("x"));
}

#[test]
fn characters_round_trip() {
    for s in ["", "a", "hello world", "gr\u{fc}n \u{2713} \u{1f496}", "\u{0}\n"] {
        assert_eq!(to_chars(s), chars(s));
        assert_eq!(from_chars(&to_chars(s)), s);
    }
}

#[test]
fn push_chars_appends() {
    let mut out = String::from("ab");
    push_chars(&mut out, &chars("c\u{e9}"));
    assert_eq!(out, "abc\u{e9}");
    push_chars(&mut out, &[]);
    assert_eq!(out, "abc\u{e9}");
}

#[test]
fn same_compares_character_by_character() {
    assert!(same(&chars(""), &chars("")));
    assert!(same(&chars("abc"), &chars("abc")));
    assert!(!same(&chars("abc"), &chars("abd")));
    assert!(!same(&chars("abc"), &chars("ab")));
    assert!(!same(&chars("ab"), &chars("abc")));
    assert!(same_str("", ""));
    assert!(same_str("gr\u{fc}n", "gr\u{fc}n"));
    assert!(!same_str("gr\u{fc}n", "grun"));
    assert!(!same_str("a", "A"));
    assert!(!same_str("e\u{301}", "\u{e9}"));
}

#[test]
fn matches_at_checks_one_position() {
    let s = chars("hello");
    assert!(matches_at(&s, &chars("hel"), 0));
    assert!(matches_at(&s, &chars("llo"), 2));
    assert!(!matches_at(&s, &chars("llo"), 1));
    assert!(!matches_at(&s, &chars("lo!"), 3));
    assert!(matches_at(&s, &chars(""), 5));
    assert!(!matches_at(&s, &chars(""), 6));
    assert!(!matches_at(&s, &chars("o"), usize::MAX));
}

#[test]
fn starts_with_and_contains() {
    let s = chars("application/x-yaml");
    assert!(starts_with(&s, &chars("")));
    assert!(starts_with(&s, &chars("application/")));
    assert!(starts_with(&s, &s));
    assert!(!starts_with(&s, &chars("pplication")));
    assert!(!starts_with(&s, &chars("application/x-yaml ")));
    assert!(contains(&s, &chars("")));
    assert!(contains(&s, &chars("yaml")));
    assert!(contains(&s, &chars("application")));
    assert!(contains(&s, &chars("/x-")));
    assert!(contains(&s, &s));
    assert!(!contains(&s, &chars("yamll")));
    assert!(!contains(&s, &chars("json")));
    assert!(contains(&chars(""), &chars("")));
    assert!(!contains(&chars(""), &chars("a")));
    assert!(contains(&chars("aab"), &chars("ab")));
}

#[test]
fn decimal_numerals() {
    for (n, shown) in [
        (0u64, "0"),
        (1, "1"),
        (9, "9"),
        (10, "10"),
        (11, "11"),
        (109, "109"),
        (1000, "1000"),
        (4294967296, "4294967296"),
        (u64::MAX, "18446744073709551615"),
    ] {
        let mut out = String::from("n=");
        push_decimal(&mut out, n);
        assert_eq!(out, format!("n={}", shown));
    }
}

use quelana::text::{chars_of, contains_text, push_decimal, trim};

#[test]
fn trim_removes_unicode_white_space_at_both_ends() {
    assert_eq!(trim("  hello world \t\n"), "hello world");
    assert_eq!(trim("\u{3000}\u{a0}x\u{2028}"), "x");
    assert_eq!(trim(" \t "), "");
    assert_eq!(trim(""), "");
    assert_eq!(trim("a  b"), "a  b");
}

#[test]
fn trim_is_idempotent_on_examples() {
    for s in ["  a b  ", "\n\nq?\n", "", "   "] {
        let once = trim(s);
        assert_eq!(trim(&once), once);
        assert_eq!(trim(s), s.trim());
    }
}

#[test]
fn contains_matches_std() {
    let hay = chars_of("zoom meeting");
    assert!(contains_text(&hay, &chars_of("meet")));
    assert!(contains_text(&hay, &chars_of("")));
    assert!(!contains_text(&hay, &chars_of("teams")));
    assert!(!contains_text(&chars_of("me"), &chars_of("meet")));
}

#[test]
fn decimal_notation() {
    let mut s = String::from("n=");
    push_decimal(&mut s, 0);
    assert_eq!(s, "n=0");
    let mut t = String::new();
    push_decimal(&mut t, 18446744073709551615);
    assert_eq!(t, "18446744073709551615");
    let mut u = String::new();
    push_decimal(&mut u, 400);
    assert_eq!(u, "400");
}

use locs::text::chars_of;
use locs::text::contains_chars;
use locs::text::ends_with_chars;
use locs::text::eq_lit;
use locs::text::eq_lower_lit;
use locs::text::starts_with_chars;
use locs::text::trim_chars;

fn chars(s: &str) -> Vec<char> {
    chars_of(s)
}

#[test]
fn trim_removes_leading_and_trailing_whitespace() {
    assert_eq!(trim_chars(&chars("  \t x y \r\n")), chars("x y"));
    assert_eq!(trim_chars(&chars("")), chars(""));
    assert_eq!(trim_chars(&chars(" \t\r\n")), chars(""));
    assert_eq!(trim_chars(&chars("abc")), chars("abc"));
}

#[test]
fn prefix_suffix_and_substring_tests() {
    assert!(starts_with_chars(&chars("// x"), &chars("//")));
    assert!(!starts_with_chars(&chars("/ x"), &chars("//")));
    assert!(starts_with_chars(&chars("abc"), &chars("")));
    assert!(!starts_with_chars(&chars("a"), &chars("ab")));

    assert!(ends_with_chars(&chars("x */"), &chars("*/")));
    assert!(!ends_with_chars(&chars("*/ x"), &chars("*/")));

    assert!(contains_chars(&chars("a */ b"), &chars("*/")));
    assert!(!contains_chars(&chars("a * / b"), &chars("*/")));
    assert!(contains_chars(&chars("abc"), &chars("")));
}

#[test]
fn literal_comparisons() {
    assert!(eq_lit(&chars("Makefile"), "Makefile"));
    assert!(!eq_lit(&chars("makefile"), "Makefile"));
    assert!(eq_lower_lit(&chars("RS"), "rs"));
    assert!(eq_lower_lit(&chars("Rs"), "rs"));
    assert!(!eq_lower_lit(&chars("r"), "rs"));
}

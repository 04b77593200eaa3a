use deepdrive::text::{chars_of, parse_seconds, remove_all, split_chars, string_of, trim};

fn chars(s: &str) -> Vec<char> {
    chars_of(s)
}

#[test]
fn round_trip_between_string_and_chars() {
    let v = chars("héllo wörld");
    assert_eq!(string_of(&v), "héllo wörld");
    assert_eq!(string_of(&chars("")), "");
}

#[test]
fn remove_all_takes_out_every_occurrence() {
    let out = remove_all(&chars("ab XX cd XX"), &chars("XX"));
    assert_eq!(string_of(&out), "ab  cd ");
    let overlapping = remove_all(&chars("aaa"), &chars("aa"));
    assert_eq!(string_of(&overlapping), "a");
    let untouched = remove_all(&chars("plain"), &chars("zz"));
    assert_eq!(string_of(&untouched), "plain");
}

#[test]
fn trim_strips_both_ends_only() {
    assert_eq!(string_of(&trim(&chars("  a b  "))), "a b");
    assert_eq!(string_of(&trim(&chars("\t\n x \r"))), "x");
    assert_eq!(string_of(&trim(&chars("   "))), "");
    assert_eq!(string_of(&trim(&chars(""))), "");
}

#[test]
fn split_keeps_empty_fields() {
    let parts = split_chars(&chars("a||b|"), '|');
    let rendered: Vec<String> = parts.iter().map(string_of).collect();
    assert_eq!(rendered, vec!["a", "", "b", ""]);
    let single = split_chars(&chars("abc"), '|');
    assert_eq!(single.len(), 1);
    assert_eq!(string_of(&single[0]), "abc");
}

#[test]
fn parse_seconds_accepts_digits_only() {
    assert_eq!(parse_seconds(&chars("212")), 212);
    assert_eq!(parse_seconds(&chars("0")), 0);
    assert_eq!(parse_seconds(&chars("")), 0);
    assert_eq!(parse_seconds(&chars("12a")), 0);
    assert_eq!(parse_seconds(&chars("-5")), 0);
    assert_eq!(parse_seconds(&chars("18446744073709551615")), u64::MAX);
    assert_eq!(parse_seconds(&chars("18446744073709551616")), 0);
}

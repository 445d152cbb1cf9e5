use gittwo::text::{
    append_decimal, copy_texts, decimal_string, last_segment_of, str_ends_with, strip_suffix_of,
};

#[test]
fn decimal_of_zero_and_single_digits() {
    assert_eq!(decimal_string(0), "0");
    assert_eq!(decimal_string(7), "7");
    assert_eq!(decimal_string(9), "9");
}

#[test]
fn decimal_of_numbers_with_several_digits() {
    assert_eq!(decimal_string(10), "10");
    assert_eq!(decimal_string(100), "100");
    assert_eq!(decimal_string(1234567890), "1234567890");
    assert_eq!(decimal_string(u128::MAX), u128::MAX.to_string());
}

#[test]
fn append_decimal_keeps_what_was_there() {
    let mut s = String::from("n=");
    append_decimal(&mut s, 42);
    assert_eq!(s, "n=42");
}

#[test]
fn last_segment_of_a_url() {
    assert_eq!(last_segment_of("https://github.com/psomani16k/gittwo.git", '/'), "gittwo.git");
    assert_eq!(last_segment_of("refs/heads/master", '/'), "master");
}

#[test]
fn last_segment_without_separator_is_the_whole_text() {
    assert_eq!(last_segment_of("main", '/'), "main");
    assert_eq!(last_segment_of("", '/'), "");
}

#[test]
fn last_segment_behind_a_trailing_separator_is_empty() {
    assert_eq!(last_segment_of("refs/heads/", '/'), "");
    assert_eq!(last_segment_of("/", '/'), "");
}

#[test]
fn last_segment_counts_characters_not_bytes() {
    assert_eq!(last_segment_of("grüße/zweig—ä", '/'), "zweig—ä");
}

#[test]
fn ends_with_and_strip_suffix() {
    assert!(str_ends_with("gittwo.git", ".git"));
    assert!(!str_ends_with("gittwo", ".git"));
    assert!(!str_ends_with("git", ".git"));
    assert!(str_ends_with("anything", ""));
    assert_eq!(strip_suffix_of("gittwo.git", ".git"), "gittwo");
    assert_eq!(strip_suffix_of("gittwo", ".git"), "gittwo");
    assert_eq!(strip_suffix_of(".git", ".git"), "");
    assert_eq!(strip_suffix_of("a.git.git", ".git"), "a.git");
}

#[test]
fn copy_texts_copies_every_item() {
    let list = vec![String::from("a"), String::from(""), String::from("c d")];
    assert_eq!(copy_texts(&list), list);
    let empty: Vec<String> = Vec::new();
    assert_eq!(copy_texts(&empty), empty);
}

//! Texts, names, orders and digests.

use incan_backend::digest::{digest_bytes, digest_content};
use incan_backend::names::NameMap;
use incan_backend::order::{sorted_names, text_before};
use incan_backend::text::{
    bool_text, chars_of, contains, ends_with, integer_text, join, lines, natural_text, starts_with, text_of, trim,
    trim_end,
};

fn strings(list: &[&str]) -> Vec<String> {
    list.iter().map(|text| text.to_string()).collect()
}

#[test]
fn digests_are_those_of_the_bytes() {
    assert_eq!(
        digest_content("abc"),
        "sha256:ba7816bf8f01cfea414140de5dae2223b00361a396177a9cb410ff61f20015ad"
    );
    assert_eq!(
        digest_bytes(b""),
        "sha256:e3b0c44298fc1c149afbf4c8996fb92427ae41e4649b934ca495991b7852b855"
    );
    assert_eq!(digest_content("ü"), digest_bytes("ü".as_bytes()));
}

#[test]
fn numbers_are_spelled() {
    assert_eq!(natural_text(0), "0");
    assert_eq!(natural_text(u64::MAX), "18446744073709551615");
    assert_eq!(integer_text(i64::MIN), "-9223372036854775808");
    assert_eq!(integer_text(42), "42");
    assert_eq!(bool_text(true), "true");
    assert_eq!(bool_text(false), "false");
}

#[test]
fn white_space_is_trimmed() {
    assert_eq!(trim("\t a b\u{2003}\n"), "a b");
    assert_eq!(trim("   "), "");
    assert_eq!(trim_end(" a \u{a0}"), " a");
    assert_eq!(trim("\u{200b}a"), "\u{200b}a");
}

#[test]
fn texts_are_searched() {
    assert!(contains("def main", "main"));
    assert!(contains("abc", ""));
    assert!(!contains("ab", "abc"));
    assert!(starts_with("#![allow(", "#!["));
    assert!(ends_with("a.incn", ".incn"));
    assert!(!ends_with("incn", ".incn"));
}

#[test]
fn lines_end_with_line_feeds() {
    assert_eq!(lines("a\r\nb\n\nc"), ["a", "b", "", "c"]);
    assert_eq!(lines("a\rb\n"), ["a\rb"]);
    assert_eq!(lines(""), Vec::<String>::new());
    assert_eq!(lines("\n"), [""]);
}

#[test]
fn texts_are_joined_and_cut() {
    assert_eq!(join(&strings(&["a", "b", "c"]), "::"), "a::b::c");
    assert_eq!(join(&[], ", "), "");
    assert_eq!(text_of(&chars_of("Grüße"), 2, 4), "üß");
}

#[test]
fn names_are_sorted_without_repetition() {
    let sorted = sorted_names(&strings(&["b", "a", "c", "a", ""]));
    assert_eq!(sorted, ["", "a", "b", "c"]);
    assert_eq!(sorted, sorted_names(&strings(&["", "c", "a", "b"])));
    assert!(text_before("Z", "a"));
    assert!(text_before("a", "ab"));
    assert!(!text_before("b", "ab"));
    assert!(text_before("z", "ä"));
    assert!(!text_before("a", "a"));
}

#[test]
fn later_values_replace_earlier_ones() {
    let mut map: NameMap<u32> = NameMap::new();
    map.insert("a".to_string(), 1);
    map.insert("b".to_string(), 2);
    map.insert("a".to_string(), 3);
    assert_eq!(map.get("a"), Some(&3));
    assert_eq!(map.get("b"), Some(&2));
    assert!(map.contains_key("b"));
    assert!(!map.contains_key("c"));
    assert_eq!(map.entries.len(), 2);
}

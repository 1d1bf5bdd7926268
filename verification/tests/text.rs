use team_bot::name_map::NameMap;
use team_bot::text::{
    char_vec, concat2, concat3, contains, decimal_i32, decimal_u64, is_white_space, same_text,
    starts_with, strip_prefix, trim, trim_start_matches,
};

#[test]
fn characters_are_not_bytes() {
    assert_eq!(char_vec("a\u{e9}\u{1f600}"), vec!['a', '\u{e9}', '\u{1f600}']);
    assert_eq!(char_vec(""), Vec::<char>::new());
}

#[test]
fn texts_are_compared_by_character() {
    assert!(same_text("zulip", "zulip"));
    assert!(same_text("", ""));
    assert!(!same_text("zulip", "Zulip"));
    assert!(!same_text("zulip", "zulip "));
}

#[test]
fn texts_are_joined() {
    assert_eq!(concat2("ab", "cd"), "abcd");
    assert_eq!(concat3("ab", "", "\u{e9}"), "ab\u{e9}");
}

#[test]
fn occurrences_agree_with_std() {
    let texts = ["", "a", "aab", "[X]", "a[X]b[X]", "\u{e9}a\u{e9}"];
    for text in texts {
        for pattern in texts {
            assert_eq!(contains(text, pattern), text.contains(pattern));
            assert_eq!(starts_with(text, pattern), text.starts_with(pattern));
            assert_eq!(strip_prefix(text, pattern), text.strip_prefix(pattern));
            if !pattern.is_empty() {
                assert_eq!(trim_start_matches(text, pattern), text.trim_start_matches(pattern));
            }
        }
    }
}

#[test]
fn leading_copies_are_removed() {
    assert_eq!(trim_start_matches("@every @every 5m", "@every "), "5m");
    assert_eq!(trim_start_matches("@every5m", "@every "), "@every5m");
}

#[test]
fn white_space_agrees_with_std() {
    for code in 0..=0x10ffff_u32 {
        if let Some(c) = char::from_u32(code) {
            assert_eq!(is_white_space(c), c.is_whitespace(), "{:x}", code);
        }
    }
}

#[test]
fn white_space_is_trimmed_at_both_ends() {
    assert_eq!(trim(" \t\u{a0}a b\n\u{3000}"), "a b");
    assert_eq!(trim(" \r\n "), "");
    assert_eq!(trim("a"), "a");
    assert_eq!(trim(""), "");
}

#[test]
fn decimal_numbers() {
    assert_eq!(decimal_u64(0), "0");
    assert_eq!(decimal_u64(1234567890), "1234567890");
    assert_eq!(decimal_u64(u64::MAX), u64::MAX.to_string());
    assert_eq!(decimal_i32(-7), "-7");
    assert_eq!(decimal_i32(i32::MIN), i32::MIN.to_string());
    assert_eq!(decimal_i32(i32::MAX), i32::MAX.to_string());
}

#[test]
fn last_entry_of_a_name_counts() {
    let map = NameMap::new()
        .with("a".to_owned(), 1)
        .with("b".to_owned(), 2)
        .with("a".to_owned(), 3);
    assert_eq!(map.get("a"), Some(&3));
    assert_eq!(map.get("b"), Some(&2));
    assert_eq!(map.get("c"), None);
    assert!(map.contains_key("b"));
    assert!(!map.contains_key("c"));
    assert_eq!(map.entries().len(), 2);
    assert_eq!(map.into_entries(), vec![("a".to_owned(), 3), ("b".to_owned(), 2)]);
}

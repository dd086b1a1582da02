use termusiclib::cache::Cache;
use termusiclib::text::{chars_of, decimal, lower_hex, same_text, string_of};

#[test]
fn characters_of_a_string_and_back() {
    assert_eq!(chars_of("aß語"), vec!['a', 'ß', '語']);
    assert_eq!(chars_of(""), Vec::<char>::new());
    assert_eq!(string_of(&vec!['x', 'ÿ', '🔥']), "xÿ🔥");
    assert_eq!(string_of(&vec![]), "");
}

#[test]
fn same_text_compares_characters() {
    assert!(same_text("", ""));
    assert!(same_text("mp3", "mp3"));
    assert!(!same_text("mp3", "MP3"));
    assert!(!same_text("mp3", "mp"));
    assert!(!same_text("", "a"));
}

#[test]
fn decimal_numerals() {
    assert_eq!(decimal(0), "0");
    assert_eq!(decimal(7), "7");
    assert_eq!(decimal(10), "10");
    assert_eq!(decimal(1905), "1905");
    assert_eq!(decimal(u64::MAX), "18446744073709551615");
}

#[test]
fn hexadecimal_numerals() {
    assert_eq!(lower_hex(0), "0");
    assert_eq!(lower_hex(15), "f");
    assert_eq!(lower_hex(16), "10");
    assert_eq!(lower_hex(0xdead_beef), "deadbeef");
    assert_eq!(lower_hex(u128::MAX), "ffffffffffffffffffffffffffffffff");
}

#[test]
fn cache_keeps_one_value_per_key() {
    let mut cache: Cache<u32> = Cache::new();
    assert_eq!(cache.get("a"), None);
    assert_eq!(cache.insert("a".to_string(), 1), None);
    assert_eq!(cache.insert("b".to_string(), 2), None);
    assert_eq!(cache.get("a"), Some(&1));
    assert_eq!(cache.insert("a".to_string(), 3), Some(1));
    assert_eq!(cache.get("a"), Some(&3));
    assert_eq!(cache.get("b"), Some(&2));
    assert_eq!(cache.remove("a"), Some(3));
    assert_eq!(cache.remove("a"), None);
    assert_eq!(cache.get("a"), None);
    assert_eq!(cache.get("b"), Some(&2));
}

use std::collections::hash_map::DefaultHasher;
use std::hash::Hash;
use std::hash::Hasher;
use ztr::fingerprint::hash_string;
use ztr::fingerprint::hash_text;

fn std_hash(text: &str) -> u64 {
    let mut hasher = DefaultHasher::new();
    text.to_string().hash(&mut hasher);
    hasher.finish()
}

#[test]
fn fingerprint_is_the_decimal_hash() {
    for text in ["", "hello", "a", "b", "\u{4e16}\u{754c}", "line one\nline two"] {
        assert_eq!(hash_string(&text.to_string()), std_hash(text).to_string());
        assert_eq!(hash_string(&text.to_string()), format!("{}", std_hash(text)));
    }
}

#[test]
fn fingerprint_reads_back_as_a_number() {
    let key = hash_string(&"hello".to_string());
    assert!(!key.is_empty());
    assert!(key.len() <= 20);
    assert!(key.bytes().all(|b| b.is_ascii_digit()));
    assert!(key == "0" || !key.starts_with('0'));
    assert_eq!(key.parse::<u64>().unwrap(), std_hash("hello"));
    assert_ne!(key, "hello");
}

#[test]
fn fingerprint_is_stable() {
    let text = "some content".to_string();
    assert_eq!(hash_string(&text), hash_string(&text));
    assert_eq!(hash_string(&text), hash_string(&"some content".to_string()));
}

#[test]
fn fingerprint_tells_contents_apart() {
    assert_ne!(hash_string(&"a".to_string()), hash_string(&"b".to_string()));
    assert_ne!(hash_string(&"ab".to_string()), hash_string(&"ba".to_string()));
    assert_ne!(hash_string(&"".to_string()), hash_string(&" ".to_string()));
}

#[test]
fn crate_root_offers_the_fingerprint() {
    assert_eq!(ztr::hash_string(&"x".to_string()), hash_string(&"x".to_string()));
}

#[test]
fn hash_is_written_in_plain_decimal() {
    assert_eq!(hash_text(0), "0");
    assert_eq!(hash_text(7), "7");
    assert_eq!(hash_text(10), "10");
    assert_eq!(hash_text(1234), "1234");
    assert_eq!(hash_text(9_007_199_254_740_993), "9007199254740993");
    assert_eq!(hash_text(u64::MAX), "18446744073709551615");
}

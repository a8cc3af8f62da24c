use clipboard_formatter::detect::{calculate_hash, changed};
use std::collections::hash_map::DefaultHasher;
use std::hash::{Hash, Hasher};

#[test]
fn equal_texts_have_equal_fingerprints() {
    assert_eq!(calculate_hash("foo １２"), calculate_hash("foo １２"));
    assert_eq!(calculate_hash(""), calculate_hash(""));
    let owned = String::from("foo");
    assert_eq!(calculate_hash(&owned), calculate_hash("foo"));
}

#[test]
fn the_fingerprint_is_that_of_the_default_hasher() {
    for text in ["", "a", "foo baz １２３４！？"] {
        let mut state = DefaultHasher::new();
        text.to_string().hash(&mut state);
        assert_eq!(calculate_hash(text), state.finish());
    }
}

#[test]
fn different_texts_are_told_apart() {
    assert_ne!(calculate_hash("foo"), calculate_hash("bar"));
    assert_ne!(calculate_hash(""), calculate_hash("\u{0}"));
    assert_ne!(calculate_hash("a"), 0);
}

#[test]
fn digests_differ_or_not() {
    assert!(changed(1, 2));
    assert!(!changed(7, 7));
    assert!(changed(0, u64::MAX));
    assert!(!changed(calculate_hash("x"), calculate_hash("x")));
    assert!(changed(calculate_hash("x"), calculate_hash("y")));
}

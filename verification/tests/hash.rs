use precompiled_shaders::hash::{fnv1a64, key_hash, FIRST_BASIS, SECOND_BASIS};

#[test]
fn fnv1a64_known_values() {
    assert_eq!(fnv1a64(FIRST_BASIS, b""), 0xcbf29ce484222325);
    assert_eq!(fnv1a64(FIRST_BASIS, b"a"), 0xaf63dc4c8601ec8c);
    assert_eq!(fnv1a64(FIRST_BASIS, b"foobar"), 0x85944171f73967e8);
    assert_eq!(fnv1a64(SECOND_BASIS, b""), 0x9e3779b97f4a7c15);
}

#[test]
fn fnv1a64_resumes_from_a_prefix() {
    let prefix = fnv1a64(FIRST_BASIS, b"stage=");
    assert_eq!(fnv1a64(prefix, b"vertex;"), fnv1a64(FIRST_BASIS, b"stage=vertex;"));
}

#[test]
fn key_of_empty_text_is_both_bases() {
    assert_eq!(key_hash(""), "cbf29ce4842223259e3779b97f4a7c15");
}

#[test]
fn key_hash_known_values() {
    assert_eq!(key_hash("a"), "af63dc4c8601ec8c22c04a334b91791c");
    assert_eq!(key_hash("stage=compute;"), "882abe5e99674b46cdb1a20f6d1e03d6");
    assert_eq!(key_hash("\u{e9}\u{4e16}"), "cf246610b1eec509a33cf69179a42759");
}

#[test]
fn key_pads_each_half_with_zeros() {
    assert_eq!(key_hash("t11103900"), "0e3dc58f4c17d7640176c8cbda282494");
}

#[test]
fn keys_are_thirty_two_hex_digits_and_differ() {
    let a = key_hash("stage=vertex;");
    let b = key_hash("stage=fragment;");
    assert_eq!(a.len(), 32);
    assert!(a.chars().all(|c| c.is_ascii_digit() || ('a'..='f').contains(&c)));
    assert_ne!(a, b);
}

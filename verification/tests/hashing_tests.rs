use progress_hashing::hashing::hash_bytes;
use progress_hashing::ContentHasher;

#[test]
fn digest_of_empty_input_is_known_vector() {
    let d = hash_bytes(&[]);
    assert_eq!(
        d.as_str(),
        "af1349b9f5f9a1a6a0404dea36dcc9499bcb25c9adc112b7cc9a93cae41f3262"
    );
}

#[test]
fn digest_matches_hash_provider() {
    let d = hash_bytes(b"x");
    assert_eq!(d.as_str(), blake3::hash(b"x").to_hex().as_str());
}

#[test]
fn digest_is_64_lowercase_hex() {
    let d = hash_bytes(b"some content");
    assert_eq!(d.len(), 64);
    assert!(d
        .chars()
        .all(|c| c.is_ascii_hexdigit() && !c.is_ascii_uppercase()));
}

#[test]
fn hashing_twice_yields_identical_digest() {
    let mut h1 = ContentHasher::new();
    h1.feed(b"the same unchanged content");
    let d1 = h1.digest_hex();

    let mut h2 = ContentHasher::new();
    h2.feed(b"the same unchanged content");
    let d2 = h2.digest_hex();

    assert_eq!(d1, d2);
}

#[test]
fn chunked_feeding_equals_whole_content() {
    let mut h = ContentHasher::new();
    h.feed(b"hello ");
    h.feed(b"world");
    assert_eq!(h.digest_hex(), hash_bytes(b"hello world"));
}

#[test]
fn different_content_yields_different_digest() {
    assert_ne!(hash_bytes(b"x"), hash_bytes(b"y"));
}

use prank::hash::{cache_busted_name, hashed, u64_to_hex};

#[test]
fn hashing_is_deterministic() {
    let bytes = b"module contents".to_vec();
    let first = hashed(true, &bytes);
    let second = hashed(true, &bytes);
    assert!(first.is_some());
    assert_eq!(first, second);
    let n1 = cache_busted_name(true, "index.js", &bytes);
    let n2 = cache_busted_name(true, "index.js", &bytes);
    assert_eq!(n1, n2);
}

#[test]
fn hashing_disabled_is_identity_on_the_name() {
    let bytes = b"whatever".to_vec();
    assert_eq!(hashed(false, &bytes), None);
    assert_eq!(cache_busted_name(false, "index.js", &bytes), "index.js");
}

#[test]
fn hash_matches_the_reference_digest() {
    // the digest documented for seahash itself
    let bytes = b"to be or not to be".to_vec();
    let expected = format!("{:x}", 1988685042348123509u64);
    assert_eq!(hashed(true, &bytes), Some(expected.clone()));
    assert_eq!(
        cache_busted_name(true, "index.js", &bytes),
        format!("{expected}-index.js")
    );
}

#[test]
fn different_content_hashes_differently() {
    let a = b"alpha".to_vec();
    let b = b"beta".to_vec();
    assert_ne!(hashed(true, &a), hashed(true, &b));
}

#[test]
fn hex_rendering_is_lowercase_without_leading_zeros() {
    assert_eq!(u64_to_hex(0), "0");
    assert_eq!(u64_to_hex(15), "f");
    assert_eq!(u64_to_hex(16), "10");
    assert_eq!(u64_to_hex(0xdeadbeef), "deadbeef");
    assert_eq!(u64_to_hex(u64::MAX), "ffffffffffffffff");
}

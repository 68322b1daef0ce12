use filehost::fingerprint::{fingerprint, to_hex};
use std::collections::hash_map::DefaultHasher;
use std::hash::{Hash, Hasher};

#[test]
fn hex_of_small_numbers() {
    assert_eq!(to_hex(0), "0");
    assert_eq!(to_hex(9), "9");
    assert_eq!(to_hex(10), "a");
    assert_eq!(to_hex(15), "f");
    assert_eq!(to_hex(16), "10");
    assert_eq!(to_hex(255), "ff");
    assert_eq!(to_hex(256), "100");
}

#[test]
fn hex_of_large_numbers() {
    assert_eq!(to_hex(0xdead_beef), "deadbeef");
    assert_eq!(to_hex(0x0123_4567_89ab_cdef), "123456789abcdef");
    assert_eq!(to_hex(u64::MAX), "ffffffffffffffff");
    assert_eq!(to_hex(1 << 63), "8000000000000000");
}

#[test]
fn hex_agrees_with_the_standard_formatter() {
    let mut n: u64 = 1;
    for _ in 0..200 {
        assert_eq!(to_hex(n), format!("{:X}", n).to_lowercase());
        n = n.wrapping_mul(6364136223846793005).wrapping_add(1442695040888963407);
    }
}

#[test]
fn fingerprint_is_the_default_hash_in_lower_case_hex() {
    let content: Vec<u8> = b"0123456789".to_vec();
    let mut hasher = DefaultHasher::new();
    content.hash(&mut hasher);
    let expected = format!("{:X}", hasher.finish()).to_lowercase();
    assert_eq!(fingerprint(&content), expected);
}

#[test]
fn identical_bytes_have_identical_fingerprints() {
    let a: Vec<u8> = vec![1, 2, 3, 4, 5];
    let b: Vec<u8> = vec![1, 2, 3, 4, 5];
    assert_eq!(fingerprint(&a), fingerprint(&b));
    assert_eq!(fingerprint(&a), fingerprint(&a));
}

#[test]
fn different_bytes_have_different_fingerprints() {
    let a: Vec<u8> = vec![1, 2, 3, 4, 5];
    let b: Vec<u8> = vec![1, 2, 3, 4, 6];
    let empty: Vec<u8> = Vec::new();
    assert_ne!(fingerprint(&a), fingerprint(&b));
    assert_ne!(fingerprint(&a), fingerprint(&empty));
}

#[test]
fn fingerprint_is_short_lower_case_hex() {
    for seed in 0u8..20 {
        let content: Vec<u8> = (0..seed).collect();
        let text = fingerprint(&content);
        assert!(!text.is_empty() && text.len() <= 16);
        assert!(text.chars().all(|c| c.is_ascii_digit() || ('a'..='f').contains(&c)));
    }
}

use vdatabprot::fingerprint::{fingerprints_equal, FINGERPRINT_LEN};

#[test]
fn equal_fingerprints_compare_equal() {
    let left = [7u8; 32];
    let right = [7u8; 32];
    assert!(fingerprints_equal(&left, &right));
    assert!(fingerprints_equal(&[0u8; 32], &[0u8; 32]));
}

#[test]
fn a_difference_in_any_byte_is_seen() {
    let left = [0x5au8; 32];
    for position in 0..FINGERPRINT_LEN {
        let mut right = left;
        right[position] ^= 0x80;
        assert!(!fingerprints_equal(&left, &right));
        assert!(!fingerprints_equal(&right, &left));
    }
}

#[test]
fn fingerprint_length_is_thirty_two() {
    assert_eq!(FINGERPRINT_LEN, 32);
}

use payinbox::error::ErrorCode;
use payinbox::secret::{constant_time_eq, verify_claim_code, MAX_CLAIM_CODE_LEN};

const KECCAK_EMPTY: [u8; 32] = [
    0xc5, 0xd2, 0x46, 0x01, 0x86, 0xf7, 0x23, 0x3c, 0x92, 0x7e, 0x7d, 0xb2, 0xdc, 0xc7, 0x03, 0xc0,
    0xe5, 0x00, 0xb6, 0x53, 0xca, 0x82, 0x27, 0x3b, 0x7b, 0xfa, 0xd8, 0x04, 0x5d, 0x85, 0xa4, 0x70,
];

const KECCAK_ABC: [u8; 32] = [
    0x4e, 0x03, 0x65, 0x7a, 0xea, 0x45, 0xa9, 0x4f, 0xc7, 0xd4, 0x7b, 0xa8, 0x26, 0xc8, 0xd6, 0x67,
    0xc0, 0xd1, 0xe6, 0xe3, 0x3a, 0x64, 0xa0, 0x36, 0xec, 0x44, 0xf5, 0x8f, 0xa1, 0x2d, 0x6c, 0x45,
];

const KECCAK_ABC123: [u8; 32] = [
    0x71, 0x9a, 0xcc, 0xc6, 0x1a, 0x9c, 0xc1, 0x26, 0x83, 0x0e, 0x59, 0x06, 0xf9, 0xd6, 0x72, 0xd0,
    0x6e, 0xab, 0x6f, 0x85, 0x97, 0x28, 0x70, 0x95, 0xa2, 0xc5, 0x5a, 0x8b, 0x77, 0x5e, 0x70, 0x16,
];

const KECCAK_256_TIMES_A: [u8; 32] = [
    0x1d, 0xaa, 0x70, 0x34, 0xad, 0xab, 0x66, 0xd9, 0xec, 0x9e, 0x03, 0xe2, 0xc8, 0x92, 0x01, 0xb8,
    0x3a, 0x74, 0x97, 0xe8, 0x5d, 0xc5, 0xb9, 0x71, 0xaa, 0x9d, 0xae, 0x2c, 0xcb, 0xb7, 0xa2, 0x08,
];

#[test]
fn max_claim_code_len_is_256() {
    assert_eq!(MAX_CLAIM_CODE_LEN, 256);
}

#[test]
fn constant_time_eq_accepts_equal_values() {
    assert!(constant_time_eq(&[0u8; 32], &[0u8; 32]));
    assert!(constant_time_eq(&[0xffu8; 32], &[0xffu8; 32]));
    assert!(constant_time_eq(&KECCAK_ABC, &KECCAK_ABC));
}

#[test]
fn constant_time_eq_sees_a_difference_at_every_position() {
    for position in 0..32 {
        for bit in 0..8 {
            let a = KECCAK_ABC;
            let mut b = KECCAK_ABC;
            b[position] ^= 1u8 << bit;
            assert!(!constant_time_eq(&a, &b), "position {position}, bit {bit}");
            assert!(!constant_time_eq(&b, &a), "position {position}, bit {bit}");
        }
    }
}

#[test]
fn constant_time_eq_rejects_values_that_differ_everywhere() {
    assert!(!constant_time_eq(&[0u8; 32], &[0xffu8; 32]));
    assert!(!constant_time_eq(&KECCAK_ABC, &KECCAK_EMPTY));
}

#[test]
fn constant_time_eq_is_not_fooled_by_differences_that_cancel() {
    // The XORs of the two positions are equal, so a sum or an XOR of the
    // differences would vanish where the OR does not.
    let a = [0u8; 32];
    let mut b = [0u8; 32];
    b[3] = 0x5a;
    b[17] = 0x5a;
    assert!(!constant_time_eq(&a, &b));
}

#[test]
fn verify_accepts_the_empty_code_against_its_digest() {
    assert_eq!(verify_claim_code(b"", &KECCAK_EMPTY), Ok(true));
}

#[test]
fn verify_accepts_a_code_against_its_digest() {
    assert_eq!(verify_claim_code(b"abc", &KECCAK_ABC), Ok(true));
    assert_eq!(verify_claim_code(b"abc123", &KECCAK_ABC123), Ok(true));
}

#[test]
fn verify_rejects_a_code_against_another_digest() {
    assert_eq!(verify_claim_code(b"abc", &KECCAK_ABC123), Ok(false));
    assert_eq!(verify_claim_code(b"abc123", &KECCAK_ABC), Ok(false));
    assert_eq!(verify_claim_code(b"abd", &KECCAK_ABC), Ok(false));
    assert_eq!(verify_claim_code(b"", &KECCAK_ABC), Ok(false));
}

#[test]
fn verify_does_not_compare_the_code_itself() {
    // A commitment that holds the code instead of its digest is refused.
    let code = [7u8; 32];
    assert_eq!(verify_claim_code(&code, &code), Ok(false));
}

#[test]
fn verify_agrees_with_the_hasher() {
    let codes: [&[u8]; 4] = [b"", b"x", b"claim-code-0001", &[0xa5u8; 200]];
    for code in codes {
        let digest = solana_keccak_hasher::hash(code).to_bytes();
        assert_eq!(verify_claim_code(code, &digest), Ok(true));
        let mut other = digest;
        other[31] ^= 0x80;
        assert_eq!(verify_claim_code(code, &other), Ok(false));
    }
}

#[test]
fn verify_accepts_a_code_of_the_greatest_length() {
    let code = [b'a'; 256];
    assert_eq!(verify_claim_code(&code, &KECCAK_256_TIMES_A), Ok(true));
}

#[test]
fn verify_rejects_an_oversized_code_before_hashing() {
    let code = [b'a'; 257];
    let digest = solana_keccak_hasher::hash(&code).to_bytes();
    assert_eq!(verify_claim_code(&code, &digest), Err(ErrorCode::ClaimCodeTooLong));
    assert_eq!(verify_claim_code(&[0u8; 1000], &KECCAK_EMPTY), Err(ErrorCode::ClaimCodeTooLong));
}

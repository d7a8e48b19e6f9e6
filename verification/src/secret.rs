//! Claim codes and their commitments.
//!
//! A transfer stores the Keccak-256 digest of its claim code, never the code.
//! A presented code is hashed and the digest compared with the stored one
//! over all of its bytes, so that the time taken tells nothing about where
//! the two differ.

use vstd::prelude::*;

use crate::error::ErrorCode;

verus! {

/// The longest claim code that is hashed, in bytes.
pub const MAX_CLAIM_CODE_LEN: usize = 256;

/// The Keccak-256 digest of `data`, as `solana_keccak_hasher::hash` computes it.
pub uninterp spec fn keccak256_digest(data: Seq<u8>) -> Seq<u8>;

/// Trusted: `solana_keccak_hasher::hash`, followed by `Hash::to_bytes`.
///
/// The contract names the 32 bytes that the hasher returns for `data` and
/// claims only that they depend on the bytes of `data` alone.
#[verifier::external_body]
fn keccak256(data: &[u8]) -> (digest: [u8; 32])
    ensures
        digest@ == keccak256_digest(data@),
{
    solana_keccak_hasher::hash(data).to_bytes()
}

/// Trusted: `std::hint::black_box`, which hands its argument back and keeps
/// the compiler from reasoning about where the value came from.
#[verifier::external_body]
fn opaque_to_optimizer(value: u8) -> (same: u8)
    ensures
        same == value,
{
    std::hint::black_box(value)
}

/// The differences between the first `n` bytes of `a` and of `b`, gathered in
/// one byte: the OR of the byte-wise XORs.
pub open spec fn xor_fold(a: Seq<u8>, b: Seq<u8>, n: nat) -> u8
    decreases n,
{
    if n == 0 {
        0u8
    } else {
        xor_fold(a, b, (n - 1) as nat) | (a[n - 1] ^ b[n - 1])
    }
}

/// What the verification of a presented claim code against a commitment
/// yields: an error for an oversized code, else whether the digest of the code
/// is the commitment.
pub open spec fn claim_code_check(claim_code: Seq<u8>, commitment: Seq<u8>) -> Result<
    bool,
    ErrorCode,
> {
    if claim_code.len() > MAX_CLAIM_CODE_LEN {
        Err(ErrorCode::ClaimCodeTooLong)
    } else {
        Ok(keccak256_digest(claim_code) == commitment)
    }
}

proof fn lemma_or_xor(acc: u8, x: u8, y: u8)
    ensures
        (acc | (x ^ y)) == 0 <==> acc == 0 && x == y,
        (acc | (x ^ y)) & (x ^ y) == x ^ y,
        forall|d: u8| acc & d == d ==> #[trigger] ((acc | (x ^ y)) & d) == d,
{
    assert((acc | (x ^ y)) == 0 <==> acc == 0 && x == y) by (bit_vector);
    assert((acc | (x ^ y)) & (x ^ y) == x ^ y) by (bit_vector);
    assert forall|d: u8| acc & d == d implies #[trigger] ((acc | (x ^ y)) & d) == d by {
        assert(acc & d == d ==> ((acc | (x ^ y)) & d) == d) by (bit_vector);
    }
}

/// The gathered differences are zero exactly when the first `n` bytes agree.
pub proof fn lemma_xor_fold_zero(a: Seq<u8>, b: Seq<u8>, n: nat)
    ensures
        xor_fold(a, b, n) == 0 <==> forall|j: int| 0 <= j < n ==> a[j] == b[j],
    decreases n,
{
    if n > 0 {
        lemma_xor_fold_zero(a, b, (n - 1) as nat);
        lemma_or_xor(xor_fold(a, b, (n - 1) as nat), a[n - 1], b[n - 1]);
    }
}

/// Every one of the first `n` positions leaves its difference in the gathered
/// byte: no position is skipped, wherever an earlier one already differed.
pub proof fn lemma_xor_fold_covers(a: Seq<u8>, b: Seq<u8>, n: nat, i: int)
    requires
        0 <= i < n,
    ensures
        xor_fold(a, b, n) & (a[i] ^ b[i]) == a[i] ^ b[i],
    decreases n,
{
    lemma_or_xor(xor_fold(a, b, (n - 1) as nat), a[n - 1], b[n - 1]);
    if i < n - 1 {
        lemma_xor_fold_covers(a, b, (n - 1) as nat, i);
    }
}

/// Compares two 32-byte values without leaving early: the differences of
/// all 32 positions are gathered before the one test for zero, so that the
/// time taken does not tell where the values differ.
#[inline(never)]
pub fn constant_time_eq(a: &[u8; 32], b: &[u8; 32]) -> (equal: bool)
    ensures
        equal == (xor_fold(a@, b@, 32) == 0),
        equal == (a@ == b@),
{
    let mut result: u8 = 0;
    let mut i: usize = 0;
    while i < 32
        invariant
            i <= 32,
            result == xor_fold(a@, b@, i as nat),
        decreases 32 - i,
    {
        result |= a[i] ^ b[i];
        i += 1;
    }
    proof {
        lemma_xor_fold_zero(a@, b@, 32);
        if result == 0 {
            assert(a@ =~= b@);
        }
    }
    opaque_to_optimizer(result) == 0
}

/// Verifies a presented claim code against the commitment of a transfer.
///
/// A code of more than `MAX_CLAIM_CODE_LEN` bytes is rejected before anything
/// is hashed. Otherwise the code is hashed and the digest compared with the
/// commitment in constant time.
pub fn verify_claim_code(claim_code: &[u8], commitment: &[u8; 32]) -> (verdict: Result<
    bool,
    ErrorCode,
>)
    ensures
        verdict == claim_code_check(claim_code@, commitment@),
{
    if claim_code.len() > MAX_CLAIM_CODE_LEN {
        return Err(ErrorCode::ClaimCodeTooLong);
    }
    let digest = keccak256(claim_code);
    Ok(constant_time_eq(&digest, commitment))
}

/// A code of admissible length is accepted against its own digest.
pub proof fn lemma_verify_accepts_own_digest(claim_code: Seq<u8>)
    requires
        claim_code.len() <= MAX_CLAIM_CODE_LEN,
    ensures
        claim_code_check(claim_code, keccak256_digest(claim_code)) == Ok::<bool, ErrorCode>(true),
{
}

/// A code of admissible length is refused against the digest of any code
/// whose digest differs from its own.
pub proof fn lemma_verify_refuses_other_digest(claim_code: Seq<u8>, other: Seq<u8>)
    requires
        claim_code.len() <= MAX_CLAIM_CODE_LEN,
        keccak256_digest(claim_code) != keccak256_digest(other),
    ensures
        claim_code_check(claim_code, keccak256_digest(other)) == Ok::<bool, ErrorCode>(false),
{
}

} // verus!

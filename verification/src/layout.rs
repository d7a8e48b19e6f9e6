//! The stored form of a transfer record: 187 bytes of fixed width.
//!
//! ```text
//! sender(32) | email_hash(32) | claim_code_hash(32) | amount(8) | token_mint(32)
//!   | escrow_token_account(32) | created_at(8) | expiry(8) | status(1) | bump(1) | escrow_bump(1)
//! ```
//!
//! Integers are little-endian, timestamps in two's complement, and the status
//! is the number of its variant.

use vstd::bytes::{
    lemma_auto_spec_u64_to_from_le_bytes, spec_u64_to_le_bytes, u64_from_le_bytes,
    u64_to_le_bytes,
};
use vstd::prelude::*;
use vstd::slice::slice_subrange;

use crate::pubkey::Pubkey;
use crate::state::{TransferAccount, TransferStatus};

verus! {

/// The byte that stands for a status in a stored record.
pub open spec fn status_byte(status: TransferStatus) -> u8 {
    match status {
        TransferStatus::Active => 0,
        TransferStatus::Claimed => 1,
        TransferStatus::Cancelled => 2,
        TransferStatus::Expired => 3,
    }
}

/// The stored form of `record`.
pub open spec fn packed(record: TransferAccount) -> Seq<u8> {
    record.sender.bytes@ + record.email_hash@ + record.claim_code_hash@ + spec_u64_to_le_bytes(
        record.amount,
    ) + record.token_mint.bytes@ + record.escrow_token_account.bytes@ + spec_u64_to_le_bytes(
        record.created_at as u64,
    ) + spec_u64_to_le_bytes(record.expiry as u64) + seq![
        status_byte(record.status),
        record.bump,
        record.escrow_bump,
    ]
}

/// Where each field lies in the stored form.
pub proof fn lemma_packed_fields(record: TransferAccount)
    ensures
        packed(record).len() == TransferAccount::LEN,
        packed(record).subrange(0, 32) == record.sender.bytes@,
        packed(record).subrange(32, 64) == record.email_hash@,
        packed(record).subrange(64, 96) == record.claim_code_hash@,
        packed(record).subrange(96, 104) == spec_u64_to_le_bytes(record.amount),
        packed(record).subrange(104, 136) == record.token_mint.bytes@,
        packed(record).subrange(136, 168) == record.escrow_token_account.bytes@,
        packed(record).subrange(168, 176) == spec_u64_to_le_bytes(record.created_at as u64),
        packed(record).subrange(176, 184) == spec_u64_to_le_bytes(record.expiry as u64),
        packed(record)[184] == status_byte(record.status),
        packed(record)[185] == record.bump,
        packed(record)[186] == record.escrow_bump,
{
    lemma_auto_spec_u64_to_from_le_bytes();
    let p = packed(record);
    assert(p.subrange(0, 32) =~= record.sender.bytes@);
    assert(p.subrange(32, 64) =~= record.email_hash@);
    assert(p.subrange(64, 96) =~= record.claim_code_hash@);
    assert(p.subrange(96, 104) =~= spec_u64_to_le_bytes(record.amount));
    assert(p.subrange(104, 136) =~= record.token_mint.bytes@);
    assert(p.subrange(136, 168) =~= record.escrow_token_account.bytes@);
    assert(p.subrange(168, 176) =~= spec_u64_to_le_bytes(record.created_at as u64));
    assert(p.subrange(176, 184) =~= spec_u64_to_le_bytes(record.expiry as u64));
}

proof fn lemma_same_bytes(a: [u8; 32], b: [u8; 32])
    requires
        a@ == b@,
    ensures
        a == b,
{
    assert forall|i: int| 0 <= i < 32 implies a[i] == b[i] by {
        assert(a@[i] == b@[i]);
    }
    assert(a =~= b);
}

proof fn lemma_same_timestamp(a: i64, b: i64)
    requires
        a as u64 == b as u64,
    ensures
        a == b,
{
    assert(a as u64 == b as u64 ==> a == b) by (bit_vector);
}

/// Two records with the same stored form are the same record.
pub proof fn lemma_packed_injective(a: TransferAccount, b: TransferAccount)
    requires
        packed(a) == packed(b),
    ensures
        a == b,
{
    lemma_packed_fields(a);
    lemma_packed_fields(b);
    lemma_auto_spec_u64_to_from_le_bytes();
    lemma_same_bytes(a.sender.bytes, b.sender.bytes);
    lemma_same_bytes(a.email_hash, b.email_hash);
    lemma_same_bytes(a.claim_code_hash, b.claim_code_hash);
    lemma_same_bytes(a.token_mint.bytes, b.token_mint.bytes);
    lemma_same_bytes(a.escrow_token_account.bytes, b.escrow_token_account.bytes);
    lemma_same_timestamp(a.created_at, b.created_at);
    lemma_same_timestamp(a.expiry, b.expiry);
}

fn push_all(out: &mut Vec<u8>, bytes: &[u8])
    ensures
        final(out)@ == old(out)@ + bytes@,
{
    let mut i: usize = 0;
    while i < bytes.len()
        invariant
            i <= bytes.len(),
            out@ == old(out)@ + bytes@.subrange(0, i as int),
        decreases bytes.len() - i,
    {
        out.push(bytes[i]);
        i += 1;
        assert(out@ =~= old(out)@ + bytes@.subrange(0, i as int));
    }
    assert(bytes@.subrange(0, i as int) =~= bytes@);
}

fn read_32(bytes: &[u8], offset: usize) -> (out: [u8; 32])
    requires
        offset + 32 <= bytes.len(),
    ensures
        out@ == bytes@.subrange(offset as int, offset + 32),
{
    let mut out = [0u8; 32];
    let mut i: usize = 0;
    while i < 32
        invariant
            i <= 32,
            offset + 32 <= bytes.len(),
            forall|j: int| 0 <= j < i ==> out[j] == bytes[offset + j],
        decreases 32 - i,
    {
        out[i] = bytes[offset + i];
        i += 1;
    }
    assert(out@ =~= bytes@.subrange(offset as int, offset + 32));
    out
}

fn read_u64(bytes: &[u8], offset: usize) -> (value: u64)
    requires
        offset + 8 <= bytes.len(),
    ensures
        spec_u64_to_le_bytes(value) == bytes@.subrange(offset as int, offset + 8),
{
    proof {
        lemma_auto_spec_u64_to_from_le_bytes();
    }
    u64_from_le_bytes(slice_subrange(bytes, offset, offset + 8))
}

fn timestamp_bits(timestamp: i64) -> (bits: u64)
    ensures
        bits == timestamp as u64,
{
    timestamp as u64
}

fn timestamp_of(bits: u64) -> (timestamp: i64)
    ensures
        timestamp as u64 == bits,
{
    let timestamp = bits as i64;
    assert((bits as i64) as u64 == bits) by (bit_vector);
    timestamp
}

impl TransferAccount {
    /// Writes the record in its stored form.
    pub fn pack(&self) -> (bytes: Vec<u8>)
        ensures
            bytes@ == packed(*self),
            bytes.len() == TransferAccount::LEN,
    {
        let mut bytes: Vec<u8> = Vec::with_capacity(TransferAccount::LEN);
        push_all(&mut bytes, &self.sender.bytes);
        push_all(&mut bytes, &self.email_hash);
        push_all(&mut bytes, &self.claim_code_hash);
        let mut amount = u64_to_le_bytes(self.amount);
        bytes.append(&mut amount);
        push_all(&mut bytes, &self.token_mint.bytes);
        push_all(&mut bytes, &self.escrow_token_account.bytes);
        let mut created_at = u64_to_le_bytes(timestamp_bits(self.created_at));
        bytes.append(&mut created_at);
        let mut expiry = u64_to_le_bytes(timestamp_bits(self.expiry));
        bytes.append(&mut expiry);
        bytes.push(
            match self.status {
                TransferStatus::Active => 0,
                TransferStatus::Claimed => 1,
                TransferStatus::Cancelled => 2,
                TransferStatus::Expired => 3,
            },
        );
        bytes.push(self.bump);
        bytes.push(self.escrow_bump);
        proof {
            lemma_packed_fields(*self);
            assert(bytes@ =~= packed(*self));
        }
        bytes
    }

    /// Reads a record from its stored form. There is a record exactly when
    /// `bytes` is the stored form of one: `LEN` bytes, of which the one at
    /// offset 184 stands for a status.
    pub fn unpack(bytes: &[u8]) -> (record: Option<TransferAccount>)
        ensures
            record is Some <==> bytes@.len() == TransferAccount::LEN && bytes@[184] <= 3,
            record matches Some(found) ==> packed(found) == bytes@,
            record is None ==> forall|other: TransferAccount| #[trigger] packed(other) != bytes@,
    {
        if bytes.len() != TransferAccount::LEN {
            proof {
                lemma_unreadable(bytes@);
            }
            return None;
        }
        let status = match bytes[184] {
            0 => TransferStatus::Active,
            1 => TransferStatus::Claimed,
            2 => TransferStatus::Cancelled,
            3 => TransferStatus::Expired,
            _ => {
                proof {
                    lemma_unreadable(bytes@);
                }
                return None;
            },
        };
        let record = TransferAccount {
            sender: Pubkey { bytes: read_32(bytes, 0) },
            email_hash: read_32(bytes, 32),
            claim_code_hash: read_32(bytes, 64),
            amount: read_u64(bytes, 96),
            token_mint: Pubkey { bytes: read_32(bytes, 104) },
            escrow_token_account: Pubkey { bytes: read_32(bytes, 136) },
            created_at: timestamp_of(read_u64(bytes, 168)),
            expiry: timestamp_of(read_u64(bytes, 176)),
            status,
            bump: bytes[185],
            escrow_bump: bytes[186],
        };
        proof {
            lemma_packed_fields(record);
            assert(packed(record) =~= bytes@);
        }
        Some(record)
    }
}

/// The stored form of a record is `LEN` bytes long and holds a status byte
/// that stands for a status, so that it can be read again.
pub proof fn lemma_packed_readable(record: TransferAccount)
    ensures
        packed(record).len() == TransferAccount::LEN,
        packed(record)[184] <= 3,
{
    lemma_packed_fields(record);
}

/// Bytes of another length, or with another status byte, are the stored form
/// of no record.
pub proof fn lemma_unreadable(bytes: Seq<u8>)
    requires
        bytes.len() != TransferAccount::LEN || bytes[184] > 3,
    ensures
        forall|record: TransferAccount| #[trigger] packed(record) != bytes,
{
    assert forall|record: TransferAccount| #[trigger] packed(record) != bytes by {
        lemma_packed_readable(record);
    }
}

/// What was packed is what is unpacked: whatever `unpack` answers for the
/// stored form of a record is that record.
pub proof fn lemma_unpack_packed(record: TransferAccount, read: Option<TransferAccount>)
    requires
        read is Some <==> packed(record).len() == TransferAccount::LEN && packed(record)[184] <= 3,
        read matches Some(found) ==> packed(found) == packed(record),
    ensures
        read == Some(record),
{
    lemma_packed_readable(record);
    lemma_packed_injective(read->Some_0, record);
}

} // verus!

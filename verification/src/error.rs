//! Reasons for which an instruction is rejected.

use vstd::prelude::*;

verus! {

/// Why an instruction was rejected. A rejected instruction moves no tokens
/// and changes no transfer.
#[derive(Clone, Copy, Debug, PartialEq, Eq, Structural)]
pub enum ErrorCode {
    /// The presented claim code does not hash to the stored commitment.
    InvalidClaimCode,
    /// The presented claim code is longer than `MAX_CLAIM_CODE_LEN` bytes.
    ClaimCodeTooLong,
    /// The deadline has been reached, so the transfer can no longer be claimed.
    TransferExpired,
    /// The deadline has not been reached yet, so the transfer cannot be reclaimed.
    NotExpired,
    /// Only the original sender can perform this action.
    Unauthorized,
    /// The amount is below `MIN_TRANSFER_AMOUNT`.
    InvalidAmount,
    /// The lifetime is outside `MIN_EXPIRY_SECONDS ..= MAX_EXPIRY_SECONDS`.
    InvalidExpiry,
    /// A token account is not owned by the party it was presented for.
    InvalidTokenAccount,
    /// A token account holds another mint than the transfer's.
    InvalidTokenMint,
    /// The funding token account holds less than the amount to lock.
    InsufficientFunds,
    /// The escrow account is not the one recorded in the transfer.
    InvalidEscrowAccount,
    /// The sender account is not the one recorded in the transfer.
    InvalidSender,
    /// The deadline does not fit the timestamp type.
    Overflow,
    /// The transfer is not active any more.
    InvalidTransferState,
    /// A transfer from this sender to this recipient exists already.
    DuplicateTransfer,
}

} // verus!

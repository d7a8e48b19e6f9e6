//! The four instructions of the protocol.
//!
//! Each takes the accounts it works on and the current time as plain values
//! and answers with what the host has to do: the record to store, the token
//! movements to carry out and the event to emit. An instruction that is
//! rejected answers with the reason alone, so that nothing is stored or
//! moved for it.

use vstd::prelude::*;
use vstd::utf8::encode_utf8;

use crate::accounts::{CancelTransfer, ClaimTransfer, CreateTransfer, ReclaimExpired};
use crate::error::ErrorCode;
use crate::expiry::{compute_expiry, expired_at, expiry_at, is_expired};
use crate::pubkey::Pubkey;
use crate::secret::{claim_code_check, verify_claim_code};
use crate::state::{
    settlement_of, CloseAccount, Settlement, TokenTransfer, TransferAccount, TransferCancelled,
    TransferClaimed, TransferCreated, TransferReclaimed, TransferStatus, MIN_TRANSFER_AMOUNT,
};

verus! {

/// What creates a transfer: the new record and the movement that funds its
/// escrow. The host carries out the movement and stores the record, or
/// neither.
#[derive(Clone, Copy, Debug, PartialEq, Eq)]
pub struct Creation {
    /// The record of the new transfer, in state `Active`.
    pub transfer: TransferAccount,
    /// The amount on its way from the sender into the escrow.
    pub funding: TokenTransfer,
}

/// What `create_transfer` answers.
///
/// The accounts are checked first, then the amount, then the lifetime; the
/// deadline is computed last. The first check that fails gives the error.
pub open spec fn create_outcome(
    ctx: CreateTransfer,
    email_hash: [u8; 32],
    claim_code_hash: [u8; 32],
    amount: u64,
    expiry_hours: i64,
    now: i64,
) -> Result<(Creation, TransferCreated), ErrorCode> {
    match ctx.violation(amount) {
        Some(code) => Err(code),
        None => if amount < MIN_TRANSFER_AMOUNT {
            Err(ErrorCode::InvalidAmount)
        } else {
            match expiry_at(now, expiry_hours) {
                Err(code) => Err(code),
                Ok(expiry) => Ok(
                    (
                        Creation {
                            transfer: TransferAccount {
                                sender: ctx.sender,
                                email_hash,
                                claim_code_hash,
                                amount,
                                token_mint: ctx.token_mint,
                                escrow_token_account: ctx.escrow_token_account,
                                created_at: now,
                                expiry,
                                status: TransferStatus::Active,
                                bump: ctx.bumps.transfer,
                                escrow_bump: ctx.bumps.escrow_token_account,
                            },
                            funding: TokenTransfer {
                                from: ctx.sender_token_account.key,
                                to: ctx.escrow_token_account,
                                authority: ctx.sender,
                                amount,
                            },
                        },
                        TransferCreated {
                            transfer: ctx.transfer,
                            sender: ctx.sender,
                            token_mint: ctx.token_mint,
                            amount,
                            expiry,
                        },
                    ),
                ),
            }
        },
    }
}

/// What is left to decide of a claim once the accounts have been checked and
/// the presented code verified: the code must have matched, the deadline
/// must lie ahead, and the transfer must be active, in this order.
pub open spec fn claim_decision(ctx: ClaimTransfer, verified: bool, now: i64) -> Result<
    (Settlement, TransferClaimed),
    ErrorCode,
> {
    if !verified {
        Err(ErrorCode::InvalidClaimCode)
    } else if expired_at(now, ctx.transfer.expiry) {
        Err(ErrorCode::TransferExpired)
    } else if ctx.transfer.status != TransferStatus::Active {
        Err(ErrorCode::InvalidTransferState)
    } else {
        Ok(
            (
                settlement_of(
                    ctx.transfer_key,
                    ctx.transfer,
                    TransferStatus::Claimed,
                    ctx.recipient_token_account.key,
                ),
                TransferClaimed {
                    transfer: ctx.transfer_key,
                    recipient: ctx.recipient,
                    amount: ctx.transfer.amount,
                },
            ),
        )
    }
}

/// What `claim_transfer` answers for a claim code of the given bytes.
///
/// The accounts are checked first, then the length of the code, then the
/// code against the commitment of the transfer, then the deadline, then the
/// state. The first check that fails gives the error.
pub open spec fn claim_outcome(ctx: ClaimTransfer, claim_code: Seq<u8>, now: i64) -> Result<
    (Settlement, TransferClaimed),
    ErrorCode,
> {
    match ctx.violation() {
        Some(code) => Err(code),
        None => match claim_code_check(claim_code, ctx.transfer.claim_code_hash@) {
            Err(code) => Err(code),
            Ok(verified) => claim_decision(ctx, verified, now),
        },
    }
}

/// What `cancel_transfer` answers: the transfer must be active and the
/// caller its sender. The time plays no part.
pub open spec fn cancel_outcome(ctx: CancelTransfer) -> Result<
    (Settlement, TransferCancelled),
    ErrorCode,
> {
    match ctx.violation() {
        Some(code) => Err(code),
        None => Ok(
            (
                settlement_of(
                    ctx.transfer_key,
                    ctx.transfer,
                    TransferStatus::Cancelled,
                    ctx.sender_token_account.key,
                ),
                TransferCancelled {
                    transfer: ctx.transfer_key,
                    sender: ctx.transfer.sender,
                    amount: ctx.transfer.amount,
                },
            ),
        ),
    }
}

/// What `reclaim_expired` answers: the transfer must be active and its
/// deadline reached. Who calls plays no part.
pub open spec fn reclaim_outcome(ctx: ReclaimExpired, now: i64) -> Result<
    (Settlement, TransferReclaimed),
    ErrorCode,
> {
    match ctx.violation() {
        Some(code) => Err(code),
        None => if !expired_at(now, ctx.transfer.expiry) {
            Err(ErrorCode::NotExpired)
        } else {
            Ok(
                (
                    settlement_of(
                        ctx.transfer_key,
                        ctx.transfer,
                        TransferStatus::Expired,
                        ctx.sender_token_account.key,
                    ),
                    TransferReclaimed {
                        transfer: ctx.transfer_key,
                        sender: ctx.transfer.sender,
                        amount: ctx.transfer.amount,
                    },
                ),
            )
        },
    }
}

fn settle(
    transfer_key: Pubkey,
    transfer: &TransferAccount,
    status: TransferStatus,
    destination: Pubkey,
) -> (settlement: Settlement)
    ensures
        settlement == settlement_of(transfer_key, *transfer, status, destination),
{
    Settlement {
        transfer: TransferAccount { status, ..*transfer },
        payout: TokenTransfer {
            from: transfer.escrow_token_account,
            to: destination,
            authority: transfer_key,
            amount: transfer.amount,
        },
        close: CloseAccount {
            account: transfer.escrow_token_account,
            destination: transfer.sender,
            authority: transfer_key,
        },
        signer: transfer.signer_seeds(),
    }
}

/// Creates a transfer: `amount` tokens of the sender are to be locked in a
/// fresh escrow until `expiry_hours` hours after `now`, for the recipient
/// whose e-mail digest is `email_hash` and who knows the code that hashes to
/// `claim_code_hash`.
///
/// Answers with the new record, the funding movement and the event, or with
/// the first of these reasons that applies: `DuplicateTransfer`,
/// `InvalidTokenAccount`, `InvalidTokenMint`, `InsufficientFunds`,
/// `InvalidAmount`, `InvalidExpiry`, `Overflow`.
pub fn create_transfer(
    ctx: &CreateTransfer,
    email_hash: [u8; 32],
    claim_code_hash: [u8; 32],
    amount: u64,
    expiry_hours: i64,
    now: i64,
) -> (outcome: Result<(Creation, TransferCreated), ErrorCode>)
    ensures
        outcome == create_outcome(*ctx, email_hash, claim_code_hash, amount, expiry_hours, now),
        outcome matches Ok((creation, _)) ==> creation.transfer.wf(),
{
    match ctx.validate(amount) {
        Err(code) => {
            return Err(code);
        },
        Ok(()) => {},
    }
    if amount < MIN_TRANSFER_AMOUNT {
        return Err(ErrorCode::InvalidAmount);
    }
    let expiry = match compute_expiry(now, expiry_hours) {
        Err(code) => {
            return Err(code);
        },
        Ok(expiry) => expiry,
    };
    let transfer = TransferAccount {
        sender: ctx.sender,
        email_hash,
        claim_code_hash,
        amount,
        token_mint: ctx.token_mint,
        escrow_token_account: ctx.escrow_token_account,
        created_at: now,
        expiry,
        status: TransferStatus::Active,
        bump: ctx.bumps.transfer,
        escrow_bump: ctx.bumps.escrow_token_account,
    };
    let funding = TokenTransfer {
        from: ctx.sender_token_account.key,
        to: ctx.escrow_token_account,
        authority: ctx.sender,
        amount,
    };
    let event = TransferCreated {
        transfer: ctx.transfer,
        sender: ctx.sender,
        token_mint: ctx.token_mint,
        amount,
        expiry,
    };
    Ok((Creation { transfer, funding }, event))
}

/// Decides a claim whose accounts have been checked and whose code has been
/// verified with the verdict `verified`.
///
/// Callers that hold a claim code use `claim_transfer`, which checks and
/// verifies before it decides.
pub fn settle_claim(ctx: &ClaimTransfer, verified: bool, now: i64) -> (outcome: Result<
    (Settlement, TransferClaimed),
    ErrorCode,
>)
    ensures
        outcome == claim_decision(*ctx, verified, now),
{
    if !verified {
        return Err(ErrorCode::InvalidClaimCode);
    }
    if is_expired(now, ctx.transfer.expiry) {
        return Err(ErrorCode::TransferExpired);
    }
    if ctx.transfer.status != TransferStatus::Active {
        return Err(ErrorCode::InvalidTransferState);
    }
    let settlement = settle(
        ctx.transfer_key,
        &ctx.transfer,
        TransferStatus::Claimed,
        ctx.recipient_token_account.key,
    );
    let event = TransferClaimed {
        transfer: ctx.transfer_key,
        recipient: ctx.recipient,
        amount: ctx.transfer.amount,
    };
    Ok((settlement, event))
}

/// Claims a transfer with the secret claim code.
///
/// Answers with the settlement that pays the escrowed amount to the
/// recipient and the deposit of the escrow to the sender, or with the first
/// of these reasons that applies: `InvalidTokenAccount`, `InvalidTokenMint`,
/// `InvalidEscrowAccount`, `InvalidSender`, `ClaimCodeTooLong`,
/// `InvalidClaimCode`, `TransferExpired`, `InvalidTransferState`.
pub fn claim_transfer(ctx: &ClaimTransfer, claim_code: String, now: i64) -> (outcome: Result<
    (Settlement, TransferClaimed),
    ErrorCode,
>)
    ensures
        outcome == claim_outcome(*ctx, encode_utf8(claim_code@), now),
{
    match ctx.validate() {
        Err(code) => {
            return Err(code);
        },
        Ok(()) => {},
    }
    let verified = match verify_claim_code(
        claim_code.as_str().as_bytes(),
        &ctx.transfer.claim_code_hash,
    ) {
        Err(code) => {
            return Err(code);
        },
        Ok(verified) => verified,
    };
    settle_claim(ctx, verified, now)
}

/// Cancels an active transfer on behalf of its sender, at any time.
///
/// Answers with the settlement that refunds the escrowed amount and the
/// deposit of the escrow to the sender, or with the first of these reasons
/// that applies: `InvalidTransferState`, `Unauthorized`,
/// `InvalidTokenAccount`, `InvalidTokenMint`, `InvalidEscrowAccount`.
pub fn cancel_transfer(ctx: &CancelTransfer) -> (outcome: Result<
    (Settlement, TransferCancelled),
    ErrorCode,
>)
    ensures
        outcome == cancel_outcome(*ctx),
{
    match ctx.validate() {
        Err(code) => {
            return Err(code);
        },
        Ok(()) => {},
    }
    let settlement = settle(
        ctx.transfer_key,
        &ctx.transfer,
        TransferStatus::Cancelled,
        ctx.sender_token_account.key,
    );
    let event = TransferCancelled {
        transfer: ctx.transfer_key,
        sender: ctx.transfer.sender,
        amount: ctx.transfer.amount,
    };
    Ok((settlement, event))
}

/// Reclaims a transfer whose deadline has been reached, for whoever calls.
///
/// Answers with the settlement that refunds the escrowed amount and the
/// deposit of the escrow to the original sender, or with the first of these
/// reasons that applies: `InvalidTransferState`, `InvalidTokenAccount`,
/// `InvalidTokenMint`, `InvalidEscrowAccount`, `InvalidSender`, `NotExpired`.
pub fn reclaim_expired(ctx: &ReclaimExpired, now: i64) -> (outcome: Result<
    (Settlement, TransferReclaimed),
    ErrorCode,
>)
    ensures
        outcome == reclaim_outcome(*ctx, now),
{
    match ctx.validate() {
        Err(code) => {
            return Err(code);
        },
        Ok(()) => {},
    }
    if !is_expired(now, ctx.transfer.expiry) {
        return Err(ErrorCode::NotExpired);
    }
    let settlement = settle(
        ctx.transfer_key,
        &ctx.transfer,
        TransferStatus::Expired,
        ctx.sender_token_account.key,
    );
    let event = TransferReclaimed {
        transfer: ctx.transfer_key,
        sender: ctx.transfer.sender,
        amount: ctx.transfer.amount,
    };
    Ok((settlement, event))
}

} // verus!

//! What holds of the protocol as a whole: a transfer is settled at most
//! once, a settled transfer stays as it is, and the deadline parts claiming
//! from reclaiming without gap or overlap.

use vstd::prelude::*;

use crate::accounts::{CancelTransfer, ClaimTransfer, CreateTransfer, ReclaimExpired};
use crate::error::ErrorCode;
use crate::expiry::valid_expiry_hours;
use crate::instructions::{
    cancel_outcome, claim_outcome, create_outcome, reclaim_outcome, Creation,
};
use crate::secret::claim_code_check;
use crate::state::{
    Settlement, TransferAccount, TransferCreated, TransferStatus, MIN_TRANSFER_AMOUNT,
};

verus! {

/// One attempt to settle a transfer, with everything the caller presents.
/// The record that the attempt meets is the one its predecessors left, not
/// the one written in its accounts.
pub enum Attempt {
    /// A claim with the presented code, made at `now`.
    Claim { claim: ClaimTransfer, claim_code: Seq<u8>, now: i64 },
    /// A cancellation.
    Cancel { cancel: CancelTransfer },
    /// A reclaim made at `now`.
    Reclaim { reclaim: ReclaimExpired, now: i64 },
}

impl Attempt {
    /// What the attempt answers when it meets the record `transfer`: the
    /// settlement, or the reason for which it is rejected.
    pub open spec fn outcome_on(self, transfer: TransferAccount) -> Result<Settlement, ErrorCode> {
        match self {
            Attempt::Claim { claim, claim_code, now } => match claim_outcome(
                ClaimTransfer { transfer, ..claim },
                claim_code,
                now,
            ) {
                Ok((settlement, _)) => Ok(settlement),
                Err(code) => Err(code),
            },
            Attempt::Cancel { cancel } => match cancel_outcome(
                CancelTransfer { transfer, ..cancel },
            ) {
                Ok((settlement, _)) => Ok(settlement),
                Err(code) => Err(code),
            },
            Attempt::Reclaim { reclaim, now } => match reclaim_outcome(
                ReclaimExpired { transfer, ..reclaim },
                now,
            ) {
                Ok((settlement, _)) => Ok(settlement),
                Err(code) => Err(code),
            },
        }
    }
}

/// The record after the attempts were made one after the other, a rejected
/// attempt leaving it as it was.
pub open spec fn record_after(transfer: TransferAccount, attempts: Seq<Attempt>) -> TransferAccount
    decreases attempts.len(),
{
    if attempts.len() == 0 {
        transfer
    } else {
        let before = record_after(transfer, attempts.drop_last());
        match attempts.last().outcome_on(before) {
            Ok(settlement) => settlement.transfer,
            Err(_) => before,
        }
    }
}

/// How many of the attempts were accepted.
pub open spec fn settlements(transfer: TransferAccount, attempts: Seq<Attempt>) -> nat
    decreases attempts.len(),
{
    if attempts.len() == 0 {
        0
    } else {
        let before = record_after(transfer, attempts.drop_last());
        settlements(transfer, attempts.drop_last()) + match attempts.last().outcome_on(before) {
            Ok(_) => 1nat,
            Err(_) => 0nat,
        }
    }
}

/// How much the accepted attempts moved out of the escrow, in all.
pub open spec fn paid_out(transfer: TransferAccount, attempts: Seq<Attempt>) -> nat
    decreases attempts.len(),
{
    if attempts.len() == 0 {
        0
    } else {
        let before = record_after(transfer, attempts.drop_last());
        paid_out(transfer, attempts.drop_last()) + match attempts.last().outcome_on(before) {
            Ok(settlement) => settlement.payout.amount as nat,
            Err(_) => 0nat,
        }
    }
}

/// An accepted settlement meets an active transfer, leaves it in a terminal
/// state with nothing else changed, and moves the whole amount, once, out of
/// its escrow.
pub proof fn lemma_settlement_is_one_way(attempt: Attempt, transfer: TransferAccount)
    requires
        attempt.outcome_on(transfer) is Ok,
    ensures
        transfer.status == TransferStatus::Active,
        attempt.outcome_on(transfer)->Ok_0.transfer.status.is_terminal(),
        attempt.outcome_on(transfer)->Ok_0.transfer == transfer.with_status(
            attempt.outcome_on(transfer)->Ok_0.transfer.status,
        ),
        attempt.outcome_on(transfer)->Ok_0.payout.amount == transfer.amount,
        attempt.outcome_on(transfer)->Ok_0.payout.from == transfer.escrow_token_account,
        attempt.outcome_on(transfer)->Ok_0.close.destination == transfer.sender,
        transfer.wf() ==> attempt.outcome_on(transfer)->Ok_0.transfer.wf(),
{
}

/// No instruction changes a settled transfer: every attempt on it is
/// rejected. A cancellation or a reclaim is rejected with
/// `InvalidTransferState`, and so is a claim that an active transfer would
/// have accepted.
pub proof fn lemma_settled_is_final(attempt: Attempt, transfer: TransferAccount)
    requires
        transfer.status.is_terminal(),
    ensures
        attempt.outcome_on(transfer) is Err,
        !(attempt is Claim) ==> attempt.outcome_on(transfer) == Err::<Settlement, ErrorCode>(
            ErrorCode::InvalidTransferState,
        ),
        attempt.outcome_on(transfer.with_status(TransferStatus::Active)) is Ok
            ==> attempt.outcome_on(transfer) == Err::<Settlement, ErrorCode>(
            ErrorCode::InvalidTransferState,
        ),
{
}

/// Whatever is attempted on an active transfer, in whatever order, at most
/// one attempt is accepted. While none is, the record is as it was and
/// nothing has left the escrow. Once one is, the record is terminal, differs
/// from the original in its state alone, and the escrow has paid out the
/// amount of the transfer, no more and no less.
pub proof fn lemma_settled_at_most_once(transfer: TransferAccount, attempts: Seq<Attempt>)
    requires
        transfer.status == TransferStatus::Active,
    ensures
        settlements(transfer, attempts) <= 1,
        settlements(transfer, attempts) == 0 ==> {
            &&& record_after(transfer, attempts) == transfer
            &&& paid_out(transfer, attempts) == 0
        },
        settlements(transfer, attempts) == 1 ==> {
            &&& record_after(transfer, attempts).status.is_terminal()
            &&& record_after(transfer, attempts) == transfer.with_status(
                record_after(transfer, attempts).status,
            )
            &&& paid_out(transfer, attempts) == transfer.amount
        },
    decreases attempts.len(),
{
    if attempts.len() > 0 {
        lemma_settled_at_most_once(transfer, attempts.drop_last());
        let before = record_after(transfer, attempts.drop_last());
        if before.status.is_terminal() {
            lemma_settled_is_final(attempts.last(), before);
        } else if attempts.last().outcome_on(before) is Ok {
            lemma_settlement_is_one_way(attempts.last(), before);
        }
    }
}

/// If the attempts hold one that an active transfer accepts, exactly one
/// attempt is accepted.
pub proof fn lemma_settled_exactly_once(
    transfer: TransferAccount,
    attempts: Seq<Attempt>,
    i: int,
)
    requires
        transfer.status == TransferStatus::Active,
        0 <= i < attempts.len(),
        attempts[i].outcome_on(transfer) is Ok,
    ensures
        settlements(transfer, attempts) == 1,
    decreases attempts.len(),
{
    lemma_settled_at_most_once(transfer, attempts.drop_last());
    lemma_settled_at_most_once(transfer, attempts);
    if i < attempts.len() - 1 {
        lemma_settled_exactly_once(transfer, attempts.drop_last(), i);
    }
}

/// Once an attempt has been accepted, every later one is rejected, and one
/// that the active transfer would have accepted is rejected with
/// `InvalidTransferState`.
pub proof fn lemma_later_attempts_rejected(
    transfer: TransferAccount,
    attempts: Seq<Attempt>,
    j: int,
)
    requires
        transfer.status == TransferStatus::Active,
        0 <= j < attempts.len(),
        settlements(transfer, attempts.take(j)) == 1,
    ensures
        attempts[j].outcome_on(record_after(transfer, attempts.take(j))) is Err,
        attempts[j].outcome_on(transfer) is Ok ==> attempts[j].outcome_on(
            record_after(transfer, attempts.take(j)),
        ) == Err::<Settlement, ErrorCode>(ErrorCode::InvalidTransferState),
{
    lemma_settled_at_most_once(transfer, attempts.take(j));
    let before = record_after(transfer, attempts.take(j));
    lemma_settled_is_final(attempts[j], before);
    assert(before.with_status(TransferStatus::Active) == transfer);
}

/// Where a settlement sends the tokens and the deposit: a claim pays a
/// token account of the recipient, a cancellation and a reclaim pay a token
/// account of the sender, each of the transfer's mint, and all three send
/// the deposit of the escrow to the sender.
pub proof fn lemma_settlement_destinations(
    claim: ClaimTransfer,
    claim_code: Seq<u8>,
    cancel: CancelTransfer,
    reclaim: ReclaimExpired,
    now: i64,
)
    ensures
        claim_outcome(claim, claim_code, now) matches Ok((settlement, _)) ==> {
            &&& settlement.payout.to == claim.recipient_token_account.key
            &&& claim.recipient_token_account.owner == claim.recipient
            &&& claim.recipient_token_account.mint == claim.transfer.token_mint
            &&& settlement.close.destination == claim.transfer.sender
        },
        cancel_outcome(cancel) matches Ok((settlement, _)) ==> {
            &&& settlement.payout.to == cancel.sender_token_account.key
            &&& cancel.sender_token_account.owner == cancel.transfer.sender
            &&& cancel.sender_token_account.mint == cancel.transfer.token_mint
            &&& settlement.close.destination == cancel.transfer.sender
        },
        reclaim_outcome(reclaim, now) matches Ok((settlement, _)) ==> {
            &&& settlement.payout.to == reclaim.sender_token_account.key
            &&& reclaim.sender_token_account.owner == reclaim.transfer.sender
            &&& reclaim.sender_token_account.mint == reclaim.transfer.token_mint
            &&& settlement.close.destination == reclaim.transfer.sender
        },
{
}

/// The deadline is the first instant at which a claim is too late: one
/// second before it a claim with the right code is accepted, at the deadline
/// it is rejected as expired.
pub proof fn lemma_claim_boundary(ctx: ClaimTransfer, claim_code: Seq<u8>)
    requires
        ctx.transfer.wf(),
        ctx.transfer.status == TransferStatus::Active,
        ctx.violation() is None,
        claim_code_check(claim_code, ctx.transfer.claim_code_hash@) == Ok::<bool, ErrorCode>(true),
    ensures
        claim_outcome(ctx, claim_code, (ctx.transfer.expiry - 1) as i64) is Ok,
        claim_outcome(ctx, claim_code, ctx.transfer.expiry) is Err,
        claim_outcome(ctx, claim_code, ctx.transfer.expiry)->Err_0 == ErrorCode::TransferExpired,
        forall|now: i64| claim_outcome(ctx, claim_code, now) is Ok <==> now < ctx.transfer.expiry,
{
}

/// The deadline is the first instant at which a reclaim is accepted: one
/// second before it a reclaim is rejected as not expired.
pub proof fn lemma_reclaim_boundary(ctx: ReclaimExpired)
    requires
        ctx.transfer.wf(),
        ctx.violation() is None,
    ensures
        reclaim_outcome(ctx, (ctx.transfer.expiry - 1) as i64) is Err,
        reclaim_outcome(ctx, (ctx.transfer.expiry - 1) as i64)->Err_0 == ErrorCode::NotExpired,
        reclaim_outcome(ctx, ctx.transfer.expiry) is Ok,
        forall|now: i64| reclaim_outcome(ctx, now) is Ok <==> now >= ctx.transfer.expiry,
{
}

/// At no instant can one transfer be both claimed and reclaimed, whatever
/// the accounts and the code presented.
pub proof fn lemma_claim_excludes_reclaim(
    claim: ClaimTransfer,
    claim_code: Seq<u8>,
    reclaim: ReclaimExpired,
    now: i64,
)
    requires
        claim.transfer == reclaim.transfer,
    ensures
        !(claim_outcome(claim, claim_code, now) is Ok && reclaim_outcome(reclaim, now) is Ok),
{
}

/// A creation that passes every other check and whose deadline would not
/// fit the timestamp is rejected with `Overflow`.
pub proof fn lemma_create_overflow(
    ctx: CreateTransfer,
    email_hash: [u8; 32],
    claim_code_hash: [u8; 32],
    amount: u64,
    expiry_hours: i64,
    now: i64,
)
    requires
        ctx.violation(amount) is None,
        amount >= MIN_TRANSFER_AMOUNT,
        valid_expiry_hours(expiry_hours),
        now + expiry_hours * 3600 > i64::MAX,
    ensures
        create_outcome(ctx, email_hash, claim_code_hash, amount, expiry_hours, now) == Err::<
            (Creation, TransferCreated),
            ErrorCode,
        >(ErrorCode::Overflow),
{
}

/// A created transfer is active, holds what was asked for, and ends exactly
/// `expiry_hours` hours after its creation: the deadline is never a wrapped
/// value.
pub proof fn lemma_created_record(
    ctx: CreateTransfer,
    email_hash: [u8; 32],
    claim_code_hash: [u8; 32],
    amount: u64,
    expiry_hours: i64,
    now: i64,
)
    requires
        create_outcome(ctx, email_hash, claim_code_hash, amount, expiry_hours, now) is Ok,
    ensures
        ({
            let created = create_outcome(
                ctx,
                email_hash,
                claim_code_hash,
                amount,
                expiry_hours,
                now,
            )->Ok_0.0;
            &&& created.transfer.wf()
            &&& created.transfer.status == TransferStatus::Active
            &&& created.transfer.amount == amount
            &&& created.transfer.expiry == now + expiry_hours * 3600
            &&& created.funding.amount == amount
            &&& created.funding.to == created.transfer.escrow_token_account
        }),
{
}

} // verus!

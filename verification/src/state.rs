//! The record of one escrowed transfer, the events of its life, and the token
//! movements that the host is asked to carry out.

use vstd::prelude::*;

use crate::expiry::{MAX_EXPIRY_SECONDS, MIN_EXPIRY_SECONDS};
use crate::pubkey::Pubkey;

verus! {

/// The smallest amount that can be locked, in base units of the token.
pub const MIN_TRANSFER_AMOUNT: u64 = 1;

/// Where a transfer stands. `Active` is the only state that anything leaves.
#[derive(Clone, Copy, Debug, PartialEq, Eq, Structural)]
pub enum TransferStatus {
    /// The tokens are in escrow and can be claimed.
    Active,
    /// The recipient has claimed the tokens.
    Claimed,
    /// The sender has cancelled the transfer and has the tokens back.
    Cancelled,
    /// The deadline passed and the tokens went back to the sender.
    Expired,
}

impl Default for TransferStatus {
    fn default() -> (status: Self)
        ensures
            status == TransferStatus::Active,
    {
        TransferStatus::Active
    }
}

impl TransferStatus {
    /// Whether the transfer has been settled: claimed, cancelled or reclaimed.
    pub open spec fn is_terminal(self) -> bool {
        self != TransferStatus::Active
    }
}

/// The state of one escrowed transfer.
#[derive(Clone, Copy, Debug, PartialEq, Eq)]
pub struct TransferAccount {
    /// The sender who created and funded this transfer.
    pub sender: Pubkey,
    /// Digest of the salted recipient e-mail address.
    pub email_hash: [u8; 32],
    /// Keccak-256 digest of the claim code.
    pub claim_code_hash: [u8; 32],
    /// Amount of tokens held in escrow.
    pub amount: u64,
    /// Mint of the escrowed token.
    pub token_mint: Pubkey,
    /// Address of the token account that holds the escrowed tokens.
    pub escrow_token_account: Pubkey,
    /// Unix timestamp of the creation.
    pub created_at: i64,
    /// Unix timestamp from which the transfer can no longer be claimed.
    pub expiry: i64,
    /// Where the transfer stands.
    pub status: TransferStatus,
    /// Bump seed of the address of this record.
    pub bump: u8,
    /// Bump seed of the address of the escrow token account.
    pub escrow_bump: u8,
}

impl TransferAccount {
    /// Size of the stored record in bytes: three 32-byte digests and keys
    /// before the amount, two keys after it, two timestamps, the status and
    /// the two bump seeds.
    pub const LEN: usize = 32 + 32 + 32 + 8 + 32 + 32 + 8 + 8 + 1 + 1 + 1;

    /// What holds of every record that `create_transfer` has made, whatever
    /// happened to it since: the amount is positive and the deadline lies
    /// after the creation, by an allowed lifetime.
    pub open spec fn wf(&self) -> bool {
        &&& self.amount >= MIN_TRANSFER_AMOUNT
        &&& self.created_at < self.expiry
        &&& MIN_EXPIRY_SECONDS <= self.expiry - self.created_at <= MAX_EXPIRY_SECONDS
    }

    /// This record in another state, everything else unchanged.
    pub open spec fn with_status(self, status: TransferStatus) -> TransferAccount {
        TransferAccount { status, ..self }
    }

    /// The seeds from which the address of this record is derived, and with
    /// which the host signs for the escrow.
    pub open spec fn spec_signer_seeds(&self) -> SignerSeeds {
        SignerSeeds { sender: self.sender, email_hash: self.email_hash, bump: self.bump }
    }

    /// The seeds with which the host signs for the escrow of this transfer.
    pub fn signer_seeds(&self) -> (seeds: SignerSeeds)
        ensures
            seeds == self.spec_signer_seeds(),
    {
        SignerSeeds { sender: self.sender, email_hash: self.email_hash, bump: self.bump }
    }
}

/// What stands for the authority over an escrow: the fields from which the
/// address of the transfer record is derived again at settlement.
#[derive(Clone, Copy, Debug, PartialEq, Eq)]
pub struct SignerSeeds {
    pub sender: Pubkey,
    pub email_hash: [u8; 32],
    pub bump: u8,
}

/// A movement of tokens between two token accounts of one mint.
#[derive(Clone, Copy, Debug, PartialEq, Eq)]
pub struct TokenTransfer {
    /// The token account that is debited.
    pub from: Pubkey,
    /// The token account that is credited.
    pub to: Pubkey,
    /// The account that authorises the debit.
    pub authority: Pubkey,
    /// Amount in base units of the token.
    pub amount: u64,
}

/// The closing of an emptied escrow token account, whose storage deposit
/// goes to `destination`.
#[derive(Clone, Copy, Debug, PartialEq, Eq)]
pub struct CloseAccount {
    /// The token account to close.
    pub account: Pubkey,
    /// The account that receives the deposit.
    pub destination: Pubkey,
    /// The account that authorises the closing.
    pub authority: Pubkey,
}

/// What settles a transfer: the record in its final state and the two
/// movements that empty and close the escrow. The host carries out both
/// movements and stores the record, or none of the three.
#[derive(Clone, Copy, Debug, PartialEq, Eq)]
pub struct Settlement {
    /// The record after settlement.
    pub transfer: TransferAccount,
    /// The escrowed amount on its way out of the escrow.
    pub payout: TokenTransfer,
    /// The closing of the escrow, with its deposit going to the sender.
    pub close: CloseAccount,
    /// The seeds that authorise both movements.
    pub signer: SignerSeeds,
}

/// The settlement that takes the transfer stored at `transfer_key` to
/// `status`: the whole amount goes from the escrow to `destination` and the
/// deposit of the escrow to the sender of the transfer.
pub open spec fn settlement_of(
    transfer_key: Pubkey,
    transfer: TransferAccount,
    status: TransferStatus,
    destination: Pubkey,
) -> Settlement {
    Settlement {
        transfer: transfer.with_status(status),
        payout: TokenTransfer {
            from: transfer.escrow_token_account,
            to: destination,
            authority: transfer_key,
            amount: transfer.amount,
        },
        close: CloseAccount {
            account: transfer.escrow_token_account,
            destination: transfer.sender,
            authority: transfer_key,
        },
        signer: transfer.spec_signer_seeds(),
    }
}

/// Emitted when a transfer is created.
#[derive(Clone, Copy, Debug, PartialEq, Eq)]
pub struct TransferCreated {
    /// Address of the transfer record.
    pub transfer: Pubkey,
    /// The sender who created the transfer.
    pub sender: Pubkey,
    /// Mint of the escrowed token.
    pub token_mint: Pubkey,
    /// Amount of tokens escrowed.
    pub amount: u64,
    /// Unix timestamp of the deadline.
    pub expiry: i64,
}

/// Emitted when a transfer is claimed.
#[derive(Clone, Copy, Debug, PartialEq, Eq)]
pub struct TransferClaimed {
    /// Address of the transfer record.
    pub transfer: Pubkey,
    /// The recipient who claimed the transfer.
    pub recipient: Pubkey,
    /// Amount of tokens received.
    pub amount: u64,
}

/// Emitted when the sender cancels a transfer.
#[derive(Clone, Copy, Debug, PartialEq, Eq)]
pub struct TransferCancelled {
    /// Address of the transfer record.
    pub transfer: Pubkey,
    /// The sender who cancelled.
    pub sender: Pubkey,
    /// Amount of tokens refunded.
    pub amount: u64,
}

/// Emitted when an expired transfer is reclaimed.
#[derive(Clone, Copy, Debug, PartialEq, Eq)]
pub struct TransferReclaimed {
    /// Address of the transfer record.
    pub transfer: Pubkey,
    /// The original sender, who received the refund.
    pub sender: Pubkey,
    /// Amount of tokens refunded.
    pub amount: u64,
}

} // verus!

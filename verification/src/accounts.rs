//! The accounts that each instruction is given, as the plain values that its
//! rules read, and the constraints that hold them together.

use vstd::prelude::*;

use crate::error::ErrorCode;
use crate::pubkey::Pubkey;
use crate::state::{TransferAccount, TransferStatus};

verus! {

/// What the rules read of a token account.
#[derive(Clone, Copy, Debug, PartialEq, Eq)]
pub struct TokenAccount {
    /// Address of the token account.
    pub key: Pubkey,
    /// The party that owns the tokens.
    pub owner: Pubkey,
    /// Mint of the tokens.
    pub mint: Pubkey,
    /// Balance in base units of the token.
    pub amount: u64,
}

/// Bump seeds of the two addresses that a creation derives.
#[derive(Clone, Copy, Debug, PartialEq, Eq)]
pub struct CreateTransferBumps {
    /// Bump seed of the address of the transfer record.
    pub transfer: u8,
    /// Bump seed of the address of the escrow token account.
    pub escrow_token_account: u8,
}

/// Accounts for creating a transfer.
#[derive(Clone, Copy, Debug, PartialEq, Eq)]
pub struct CreateTransfer {
    /// Address of the record to create, derived from the sender and the
    /// recipient's e-mail digest.
    pub transfer: Pubkey,
    /// Whether a record is stored at that address already.
    pub transfer_exists: bool,
    /// The sender creating and funding the transfer.
    pub sender: Pubkey,
    /// The sender's token account holding the tokens to lock.
    pub sender_token_account: TokenAccount,
    /// Mint of the token to lock.
    pub token_mint: Pubkey,
    /// Address of the escrow token account to open.
    pub escrow_token_account: Pubkey,
    /// Bump seeds of the two derived addresses.
    pub bumps: CreateTransferBumps,
}

/// Accounts for claiming a transfer with the secret code.
#[derive(Clone, Copy, Debug, PartialEq, Eq)]
pub struct ClaimTransfer {
    /// Address of the transfer record.
    pub transfer_key: Pubkey,
    /// The transfer record.
    pub transfer: TransferAccount,
    /// The recipient claiming the transfer.
    pub recipient: Pubkey,
    /// The recipient's token account.
    pub recipient_token_account: TokenAccount,
    /// Address of the escrow token account presented.
    pub escrow_token_account: Pubkey,
    /// The account presented as the original sender, which receives the
    /// deposit of the closed escrow.
    pub sender: Pubkey,
}

/// Accounts for cancelling a transfer.
#[derive(Clone, Copy, Debug, PartialEq, Eq)]
pub struct CancelTransfer {
    /// Address of the transfer record.
    pub transfer_key: Pubkey,
    /// The transfer record.
    pub transfer: TransferAccount,
    /// The caller, who must be the original sender.
    pub sender: Pubkey,
    /// The sender's token account, which receives the refund.
    pub sender_token_account: TokenAccount,
    /// Address of the escrow token account presented.
    pub escrow_token_account: Pubkey,
}

/// Accounts for reclaiming an expired transfer. The caller is not among
/// them: anyone may reclaim, and nothing goes to the caller.
#[derive(Clone, Copy, Debug, PartialEq, Eq)]
pub struct ReclaimExpired {
    /// Address of the transfer record.
    pub transfer_key: Pubkey,
    /// The transfer record.
    pub transfer: TransferAccount,
    /// The original sender's token account, which receives the refund.
    pub sender_token_account: TokenAccount,
    /// Address of the escrow token account presented.
    pub escrow_token_account: Pubkey,
    /// The account presented as the original sender, which receives the
    /// deposit of the closed escrow.
    pub original_sender: Pubkey,
}

impl CreateTransfer {
    /// The first constraint that these accounts break for locking `amount`,
    /// if any: the record must not exist yet, and the funding token account
    /// must be the sender's, of the mint to lock, and hold the amount.
    pub open spec fn violation(&self, amount: u64) -> Option<ErrorCode> {
        if self.transfer_exists {
            Some(ErrorCode::DuplicateTransfer)
        } else if self.sender_token_account.owner != self.sender {
            Some(ErrorCode::InvalidTokenAccount)
        } else if self.sender_token_account.mint != self.token_mint {
            Some(ErrorCode::InvalidTokenMint)
        } else if self.sender_token_account.amount < amount {
            Some(ErrorCode::InsufficientFunds)
        } else {
            None
        }
    }

    /// Checks the constraints on the accounts of a creation, in order.
    pub fn validate(&self, amount: u64) -> (checked: Result<(), ErrorCode>)
        ensures
            checked == match self.violation(amount) {
                Some(code) => Err::<(), ErrorCode>(code),
                None => Ok(()),
            },
    {
        if self.transfer_exists {
            Err(ErrorCode::DuplicateTransfer)
        } else if self.sender_token_account.owner != self.sender {
            Err(ErrorCode::InvalidTokenAccount)
        } else if self.sender_token_account.mint != self.token_mint {
            Err(ErrorCode::InvalidTokenMint)
        } else if self.sender_token_account.amount < amount {
            Err(ErrorCode::InsufficientFunds)
        } else {
            Ok(())
        }
    }
}

impl ClaimTransfer {
    /// The first constraint that these accounts break, if any: the token
    /// account to credit must be the recipient's and of the transfer's mint,
    /// and the escrow and the sender must be those of the record.
    pub open spec fn violation(&self) -> Option<ErrorCode> {
        if self.recipient_token_account.owner != self.recipient {
            Some(ErrorCode::InvalidTokenAccount)
        } else if self.recipient_token_account.mint != self.transfer.token_mint {
            Some(ErrorCode::InvalidTokenMint)
        } else if self.escrow_token_account != self.transfer.escrow_token_account {
            Some(ErrorCode::InvalidEscrowAccount)
        } else if self.sender != self.transfer.sender {
            Some(ErrorCode::InvalidSender)
        } else {
            None
        }
    }

    /// Checks the constraints on the accounts of a claim, in order.
    pub fn validate(&self) -> (checked: Result<(), ErrorCode>)
        ensures
            checked == match self.violation() {
                Some(code) => Err::<(), ErrorCode>(code),
                None => Ok(()),
            },
    {
        if self.recipient_token_account.owner != self.recipient {
            Err(ErrorCode::InvalidTokenAccount)
        } else if self.recipient_token_account.mint != self.transfer.token_mint {
            Err(ErrorCode::InvalidTokenMint)
        } else if self.escrow_token_account != self.transfer.escrow_token_account {
            Err(ErrorCode::InvalidEscrowAccount)
        } else if self.sender != self.transfer.sender {
            Err(ErrorCode::InvalidSender)
        } else {
            Ok(())
        }
    }
}

impl CancelTransfer {
    /// The first constraint that these accounts break, if any: the transfer
    /// must be active, the caller its sender, the token account to credit
    /// the caller's and of the transfer's mint, and the escrow that of the
    /// record.
    pub open spec fn violation(&self) -> Option<ErrorCode> {
        if self.transfer.status != TransferStatus::Active {
            Some(ErrorCode::InvalidTransferState)
        } else if self.sender != self.transfer.sender {
            Some(ErrorCode::Unauthorized)
        } else if self.sender_token_account.owner != self.sender {
            Some(ErrorCode::InvalidTokenAccount)
        } else if self.sender_token_account.mint != self.transfer.token_mint {
            Some(ErrorCode::InvalidTokenMint)
        } else if self.escrow_token_account != self.transfer.escrow_token_account {
            Some(ErrorCode::InvalidEscrowAccount)
        } else {
            None
        }
    }

    /// Checks the constraints on the accounts of a cancellation, in order.
    pub fn validate(&self) -> (checked: Result<(), ErrorCode>)
        ensures
            checked == match self.violation() {
                Some(code) => Err::<(), ErrorCode>(code),
                None => Ok(()),
            },
    {
        if self.transfer.status != TransferStatus::Active {
            Err(ErrorCode::InvalidTransferState)
        } else if self.sender != self.transfer.sender {
            Err(ErrorCode::Unauthorized)
        } else if self.sender_token_account.owner != self.sender {
            Err(ErrorCode::InvalidTokenAccount)
        } else if self.sender_token_account.mint != self.transfer.token_mint {
            Err(ErrorCode::InvalidTokenMint)
        } else if self.escrow_token_account != self.transfer.escrow_token_account {
            Err(ErrorCode::InvalidEscrowAccount)
        } else {
            Ok(())
        }
    }
}

impl ReclaimExpired {
    /// The first constraint that these accounts break, if any: the transfer
    /// must be active, the token account to credit the original sender's and
    /// of the transfer's mint, and the escrow and the sender those of the
    /// record.
    pub open spec fn violation(&self) -> Option<ErrorCode> {
        if self.transfer.status != TransferStatus::Active {
            Some(ErrorCode::InvalidTransferState)
        } else if self.sender_token_account.owner != self.transfer.sender {
            Some(ErrorCode::InvalidTokenAccount)
        } else if self.sender_token_account.mint != self.transfer.token_mint {
            Some(ErrorCode::InvalidTokenMint)
        } else if self.escrow_token_account != self.transfer.escrow_token_account {
            Some(ErrorCode::InvalidEscrowAccount)
        } else if self.original_sender != self.transfer.sender {
            Some(ErrorCode::InvalidSender)
        } else {
            None
        }
    }

    /// Checks the constraints on the accounts of a reclaim, in order.
    pub fn validate(&self) -> (checked: Result<(), ErrorCode>)
        ensures
            checked == match self.violation() {
                Some(code) => Err::<(), ErrorCode>(code),
                None => Ok(()),
            },
    {
        if self.transfer.status != TransferStatus::Active {
            Err(ErrorCode::InvalidTransferState)
        } else if self.sender_token_account.owner != self.transfer.sender {
            Err(ErrorCode::InvalidTokenAccount)
        } else if self.sender_token_account.mint != self.transfer.token_mint {
            Err(ErrorCode::InvalidTokenMint)
        } else if self.escrow_token_account != self.transfer.escrow_token_account {
            Err(ErrorCode::InvalidEscrowAccount)
        } else if self.original_sender != self.transfer.sender {
            Err(ErrorCode::InvalidSender)
        } else {
            Ok(())
        }
    }
}

} // verus!

//! Escrowed token transfers addressed to an e-mail recipient.
//!
//! A sender locks tokens in an escrow that only the holder of a secret claim
//! code can release before a deadline. Until then the sender may cancel, and
//! once the deadline has passed anyone may send the tokens back to the sender.
//!
//! The crate holds the rules of that protocol as functions from plain values
//! to plain values: the host reads accounts and the clock, asks the library
//! what to do, and carries out the token movements that it answers with.
//!
//! * [`instructions`] holds the four instructions and what each answers.
//! * [`accounts`] holds the accounts of each instruction and their constraints.
//! * [`state`] holds the transfer record, the events and the token movements.
//! * [`secret`] verifies claim codes against their commitments.
//! * [`expiry`] computes and judges deadlines.
//! * [`layout`] reads and writes the stored form of a record.
//! * [`laws`] proves what holds of the protocol as a whole.

pub mod accounts;
pub mod error;
pub mod expiry;
pub mod instructions;
pub mod laws;
pub mod layout;
pub mod pubkey;
pub mod secret;
pub mod state;

pub use accounts::{
    CancelTransfer, ClaimTransfer, CreateTransfer, CreateTransferBumps, ReclaimExpired,
    TokenAccount,
};
pub use error::ErrorCode;
pub use instructions::{
    cancel_transfer, claim_transfer, create_transfer, reclaim_expired, settle_claim, Creation,
};
pub use pubkey::Pubkey;
pub use secret::{constant_time_eq, verify_claim_code};
pub use state::{
    CloseAccount, Settlement, SignerSeeds, TokenTransfer, TransferAccount, TransferCancelled,
    TransferClaimed, TransferCreated, TransferReclaimed, TransferStatus,
};

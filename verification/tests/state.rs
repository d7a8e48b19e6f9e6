use payinbox::pubkey::{bytes_equal, Pubkey};
use payinbox::state::{SignerSeeds, TransferAccount, TransferStatus};

#[test]
fn a_new_status_is_active() {
    assert_eq!(TransferStatus::default(), TransferStatus::Active);
}

#[test]
fn the_stored_record_takes_187_bytes() {
    assert_eq!(TransferAccount::LEN, 187);
}

#[test]
fn signer_seeds_are_sender_recipient_and_bump() {
    let record = TransferAccount {
        sender: Pubkey { bytes: [1; 32] },
        email_hash: [2; 32],
        claim_code_hash: [3; 32],
        amount: 4,
        token_mint: Pubkey { bytes: [5; 32] },
        escrow_token_account: Pubkey { bytes: [6; 32] },
        created_at: 7,
        expiry: 3607,
        status: TransferStatus::Active,
        bump: 9,
        escrow_bump: 10,
    };
    assert_eq!(
        record.signer_seeds(),
        SignerSeeds { sender: Pubkey { bytes: [1; 32] }, email_hash: [2; 32], bump: 9 }
    );
}

#[test]
fn keys_are_equal_when_all_their_bytes_are() {
    let a = Pubkey::new_from_array([7; 32]);
    assert_eq!(a.to_bytes(), [7; 32]);
    assert!(a == Pubkey { bytes: [7; 32] });
    for position in 0..32 {
        let mut bytes = [7u8; 32];
        bytes[position] = 8;
        assert!(a != Pubkey { bytes });
        assert!(!bytes_equal(&a.bytes, &bytes));
    }
    assert!(bytes_equal(&[0; 32], &[0; 32]));
}

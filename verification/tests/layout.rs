use anchor_lang::AnchorSerialize;
use payinbox::pubkey::Pubkey;
use payinbox::state::{TransferAccount, TransferStatus};

fn sample() -> TransferAccount {
    let mut email_hash = [0u8; 32];
    let mut claim_code_hash = [0u8; 32];
    for i in 0..32 {
        email_hash[i] = i as u8;
        claim_code_hash[i] = 0xff - i as u8;
    }
    TransferAccount {
        sender: Pubkey { bytes: [0xa1; 32] },
        email_hash,
        claim_code_hash,
        amount: 0x0102_0304_0506_0708,
        token_mint: Pubkey { bytes: [0xb2; 32] },
        escrow_token_account: Pubkey { bytes: [0xc3; 32] },
        created_at: 1_700_000_000,
        expiry: 1_700_086_400,
        status: TransferStatus::Cancelled,
        bump: 254,
        escrow_bump: 253,
    }
}

fn status_number(status: TransferStatus) -> u8 {
    match status {
        TransferStatus::Active => 0,
        TransferStatus::Claimed => 1,
        TransferStatus::Cancelled => 2,
        TransferStatus::Expired => 3,
    }
}

/// The same fields, written by the serialiser that stores accounts on chain.
fn stored(record: &TransferAccount) -> Vec<u8> {
    (
        record.sender.bytes,
        record.email_hash,
        record.claim_code_hash,
        record.amount,
        record.token_mint.bytes,
        record.escrow_token_account.bytes,
        record.created_at,
        record.expiry,
        status_number(record.status),
        record.bump,
        record.escrow_bump,
    )
        .try_to_vec()
        .unwrap()
}

#[test]
fn pack_lays_the_fields_out_at_fixed_offsets() {
    let bytes = sample().pack();
    assert_eq!(bytes.len(), 187);
    assert_eq!(bytes.len(), TransferAccount::LEN);
    assert_eq!(&bytes[0..32], &[0xa1; 32]);
    assert_eq!(&bytes[32..64], &sample().email_hash);
    assert_eq!(&bytes[64..96], &sample().claim_code_hash);
    assert_eq!(&bytes[96..104], &[0x08, 0x07, 0x06, 0x05, 0x04, 0x03, 0x02, 0x01]);
    assert_eq!(&bytes[104..136], &[0xb2; 32]);
    assert_eq!(&bytes[136..168], &[0xc3; 32]);
    // 1_700_000_000 = 0x6553_f100, 1_700_086_400 = 0x6555_4280
    assert_eq!(&bytes[168..176], &[0x00, 0xf1, 0x53, 0x65, 0, 0, 0, 0]);
    assert_eq!(&bytes[176..184], &[0x80, 0x42, 0x55, 0x65, 0, 0, 0, 0]);
    assert_eq!(&bytes[184..187], &[2, 254, 253]);
}

#[test]
fn pack_writes_negative_timestamps_in_twos_complement() {
    let record = TransferAccount { created_at: -2, expiry: i64::MIN, ..sample() };
    let bytes = record.pack();
    assert_eq!(&bytes[168..176], &[0xfe, 0xff, 0xff, 0xff, 0xff, 0xff, 0xff, 0xff]);
    assert_eq!(&bytes[176..184], &[0, 0, 0, 0, 0, 0, 0, 0x80]);
    assert_eq!(TransferAccount::unpack(&bytes), Some(record));
}

#[test]
fn pack_numbers_the_states() {
    for (status, number) in [
        (TransferStatus::Active, 0u8),
        (TransferStatus::Claimed, 1),
        (TransferStatus::Cancelled, 2),
        (TransferStatus::Expired, 3),
    ] {
        let record = TransferAccount { status, ..sample() };
        assert_eq!(record.pack()[184], number);
    }
}

#[test]
fn pack_agrees_with_the_account_serialiser() {
    let records = [
        sample(),
        TransferAccount { status: TransferStatus::Active, amount: 1, ..sample() },
        TransferAccount {
            status: TransferStatus::Expired,
            amount: u64::MAX,
            created_at: i64::MIN,
            expiry: i64::MAX,
            bump: 0,
            escrow_bump: 255,
            ..sample()
        },
    ];
    for record in records {
        assert_eq!(record.pack(), stored(&record));
    }
}

#[test]
fn unpack_reads_what_pack_wrote() {
    for status in [
        TransferStatus::Active,
        TransferStatus::Claimed,
        TransferStatus::Cancelled,
        TransferStatus::Expired,
    ] {
        let record = TransferAccount { status, ..sample() };
        assert_eq!(TransferAccount::unpack(&record.pack()), Some(record));
    }
}

#[test]
fn unpack_reads_fields_from_their_offsets() {
    let mut bytes = vec![0u8; 187];
    bytes[0] = 1;
    bytes[63] = 2;
    bytes[64] = 3;
    bytes[96] = 0x10;
    bytes[97] = 0x27;
    bytes[135] = 4;
    bytes[167] = 5;
    bytes[168] = 0xff;
    bytes[176] = 1;
    bytes[177] = 1;
    bytes[184] = 3;
    bytes[185] = 6;
    bytes[186] = 7;
    let record = TransferAccount::unpack(&bytes).unwrap();
    let mut first = [0u8; 32];
    first[0] = 1;
    let mut last_two = [0u8; 32];
    last_two[31] = 2;
    let mut first_three = [0u8; 32];
    first_three[0] = 3;
    let mut last_four = [0u8; 32];
    last_four[31] = 4;
    let mut last_five = [0u8; 32];
    last_five[31] = 5;
    assert_eq!(
        record,
        TransferAccount {
            sender: Pubkey { bytes: first },
            email_hash: last_two,
            claim_code_hash: first_three,
            amount: 10_000,
            token_mint: Pubkey { bytes: last_four },
            escrow_token_account: Pubkey { bytes: last_five },
            created_at: 255,
            expiry: 257,
            status: TransferStatus::Expired,
            bump: 6,
            escrow_bump: 7,
        }
    );
}

#[test]
fn unpack_rejects_any_other_length() {
    let bytes = sample().pack();
    assert_eq!(TransferAccount::unpack(&bytes[..186]), None);
    assert_eq!(TransferAccount::unpack(&[]), None);
    let mut longer = bytes.clone();
    longer.push(0);
    assert_eq!(TransferAccount::unpack(&longer), None);
}

#[test]
fn unpack_rejects_a_status_byte_that_is_no_status() {
    for status in 4..=255u8 {
        let mut bytes = sample().pack();
        bytes[184] = status;
        assert_eq!(TransferAccount::unpack(&bytes), None);
    }
}

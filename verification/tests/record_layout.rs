use token_vesting::state::{
    Recipient, VestingAccount, VestingSchedule, MAX_RECIPIENTS, VESTING_ACCOUNT_LEN,
};

fn sample_record() -> VestingAccount {
    let mut recipients: Vec<Recipient> = Vec::new();
    recipients.push(Recipient {
        wallet: vec![7u8; 32],
        basis_points: 4000,
        claimed_amount: 123,
        last_claim_time: 456,
    });
    recipients.push(Recipient {
        wallet: vec![8u8; 32],
        basis_points: 6000,
        claimed_amount: 0,
        last_claim_time: 0,
    });
    while recipients.len() < MAX_RECIPIENTS {
        recipients.push(Recipient::default());
    }
    VestingAccount {
        is_initialized: true,
        initializer: vec![1u8; 32],
        mint: vec![2u8; 32],
        vault: vec![3u8; 32],
        start_time: -5,
        total_amount: 998877,
        schedule: VestingSchedule { cliff_period: 300, vesting_period: 1200, tge_basis_points: 1000 },
        recipients,
        recipient_count: 2,
        is_finalized: true,
        last_distribution_time: 42,
    }
}

#[test]
fn packed_length_is_fixed() {
    assert_eq!(VESTING_ACCOUNT_LEN, 641);
    let bytes = sample_record().pack();
    assert_eq!(bytes.len(), 641);
}

#[test]
fn pack_then_unpack_restores_every_field() {
    let v = sample_record();
    let bytes = v.pack();
    let u = VestingAccount::unpack_from_slice(&bytes).expect("fixed-length record decodes");
    assert_eq!(u.is_initialized, true);
    assert_eq!(u.initializer, vec![1u8; 32]);
    assert_eq!(u.mint, vec![2u8; 32]);
    assert_eq!(u.vault, vec![3u8; 32]);
    assert_eq!(u.start_time, -5);
    assert_eq!(u.total_amount, 998877);
    assert_eq!(u.schedule.cliff_period, 300);
    assert_eq!(u.schedule.vesting_period, 1200);
    assert_eq!(u.schedule.tge_basis_points, 1000);
    assert_eq!(u.recipient_count, 2);
    assert_eq!(u.is_finalized, true);
    assert_eq!(u.last_distribution_time, 42);
    assert_eq!(u.recipients.len(), MAX_RECIPIENTS);
    assert_eq!(u.recipients[0].wallet, vec![7u8; 32]);
    assert_eq!(u.recipients[0].basis_points, 4000);
    assert_eq!(u.recipients[0].claimed_amount, 123);
    assert_eq!(u.recipients[0].last_claim_time, 456);
    assert_eq!(u.recipients[1].wallet, vec![8u8; 32]);
    assert_eq!(u.recipients[1].basis_points, 6000);
    for i in 2..MAX_RECIPIENTS {
        assert_eq!(u.recipients[i].wallet, vec![0u8; 32]);
        assert_eq!(u.recipients[i].basis_points, 0);
        assert_eq!(u.recipients[i].claimed_amount, 0);
        assert_eq!(u.recipients[i].last_claim_time, 0);
    }
}

#[test]
fn unpack_rejects_every_other_length() {
    assert!(VestingAccount::unpack_from_slice(&[]).is_none());
    assert!(VestingAccount::unpack_from_slice(&vec![0u8; 640]).is_none());
    assert!(VestingAccount::unpack_from_slice(&vec![0u8; 642]).is_none());
}

#[test]
fn slots_beyond_count_decode_as_empty() {
    // Put garbage into the last slot's bytes: with recipient_count == 1 it
    // must still decode as the empty slot.
    let mut v = sample_record();
    v.recipient_count = 1;
    let mut bytes = v.pack();
    for b in bytes.iter_mut().skip(641 - 50) {
        *b = 0xAB;
    }
    let u = VestingAccount::unpack_from_slice(&bytes).unwrap();
    assert_eq!(u.recipients[9].wallet, vec![0u8; 32]);
    assert_eq!(u.recipients[9].basis_points, 0);
    assert_eq!(u.recipients[1].wallet, vec![0u8; 32]);
}

#[test]
fn little_endian_layout_at_fixed_offsets() {
    let v = sample_record();
    let bytes = v.pack();
    assert_eq!(bytes[0], 1); // initialized
    assert_eq!(&bytes[1..33], &[1u8; 32][..]); // initializer
    assert_eq!(&bytes[105..113], &998877u64.to_le_bytes()[..]); // total
    assert_eq!(&bytes[97..105], &(-5i64).to_le_bytes()[..]); // start time
    assert_eq!(&bytes[129..131], &1000u16.to_le_bytes()[..]); // tge
    assert_eq!(bytes[131], 2); // count
    assert_eq!(bytes[132], 1); // finalized
    assert_eq!(&bytes[141..173], &[7u8; 32][..]); // slot 0 wallet
    assert_eq!(&bytes[173..175], &4000u16.to_le_bytes()[..]); // slot 0 bp
}

use token_vesting::errors::InstructionError;
use token_vesting::instruction::VestingInstruction;

fn create_payload(count: u8, cliff: i64, vesting: i64, tge: u16, nonce: u64, entries: &[([u8; 32], u16)]) -> Vec<u8> {
    let mut data = vec![0u8, count];
    data.extend_from_slice(&cliff.to_le_bytes());
    data.extend_from_slice(&vesting.to_le_bytes());
    data.extend_from_slice(&tge.to_le_bytes());
    data.extend_from_slice(&nonce.to_le_bytes());
    for (wallet, bp) in entries {
        data.extend_from_slice(wallet);
        data.extend_from_slice(&bp.to_le_bytes());
    }
    data
}

#[test]
fn decode_create_roundtrip() {
    let data = create_payload(2, 300, 1200, 1000, 7, &[([5u8; 32], 2500), ([6u8; 32], 7500)]);
    assert_eq!(data.len(), 28 + 2 * 34);
    match VestingInstruction::try_from(&data).unwrap() {
        VestingInstruction::InitializeVesting {
            recipients,
            cliff_period,
            vesting_period,
            tge_basis_points,
            nonce,
        } => {
            assert_eq!(cliff_period, 300);
            assert_eq!(vesting_period, 1200);
            assert_eq!(tge_basis_points, 1000);
            assert_eq!(nonce, 7);
            assert_eq!(recipients.len(), 2);
            assert_eq!(recipients[0].wallet, vec![5u8; 32]);
            assert_eq!(recipients[0].basis_points, 2500);
            assert_eq!(recipients[1].wallet, vec![6u8; 32]);
            assert_eq!(recipients[1].basis_points, 7500);
        },
        _ => panic!("wrong variant"),
    }
}

#[test]
fn decode_rejects_empty_input() {
    assert_eq!(
        VestingInstruction::try_from(&[]).unwrap_err(),
        InstructionError::InvalidInstructionData
    );
}

#[test]
fn decode_rejects_unknown_opcode() {
    assert_eq!(
        VestingInstruction::try_from(&[3u8]).unwrap_err(),
        InstructionError::InvalidInstructionData
    );
    assert_eq!(
        VestingInstruction::try_from(&[0xFFu8]).unwrap_err(),
        InstructionError::InvalidInstructionData
    );
}

#[test]
fn decode_rejects_truncated_create_header() {
    let data = vec![0u8; 27];
    assert_eq!(
        VestingInstruction::try_from(&data).unwrap_err(),
        InstructionError::InvalidInstructionData
    );
}

#[test]
fn decode_rejects_zero_recipients() {
    let data = create_payload(0, 300, 1200, 1000, 7, &[]);
    assert_eq!(
        VestingInstruction::try_from(&data).unwrap_err(),
        InstructionError::InvalidRecipientCount
    );
}

#[test]
fn decode_rejects_eleven_recipients() {
    let entries: Vec<([u8; 32], u16)> = (0..11).map(|i| ([i as u8 + 1; 32], 910u16)).collect();
    let data = create_payload(11, 300, 1200, 1000, 7, &entries);
    assert_eq!(
        VestingInstruction::try_from(&data).unwrap_err(),
        InstructionError::InvalidRecipientCount
    );
}

#[test]
fn decode_rejects_create_length_mismatch() {
    let mut data = create_payload(2, 300, 1200, 1000, 7, &[([5u8; 32], 2500), ([6u8; 32], 7500)]);
    data.push(0);
    assert_eq!(
        VestingInstruction::try_from(&data).unwrap_err(),
        InstructionError::InvalidInstructionData
    );
}

#[test]
fn decode_rejects_share_sum_not_whole() {
    let data = create_payload(2, 300, 1200, 1000, 7, &[([5u8; 32], 2500), ([6u8; 32], 7499)]);
    assert_eq!(
        VestingInstruction::try_from(&data).unwrap_err(),
        InstructionError::InvalidTotalPercentage
    );
}

#[test]
fn decode_fund_roundtrip() {
    let mut data = vec![1u8];
    data.extend_from_slice(&123_456_789u64.to_le_bytes());
    match VestingInstruction::try_from(&data).unwrap() {
        VestingInstruction::Fund(amount) => assert_eq!(amount, 123_456_789),
        _ => panic!("wrong variant"),
    }
}

#[test]
fn decode_rejects_fund_length_mismatch() {
    assert_eq!(
        VestingInstruction::try_from(&[1u8]).unwrap_err(),
        InstructionError::InvalidInstructionData
    );
    let mut data = vec![1u8];
    data.extend_from_slice(&1u64.to_le_bytes());
    data.push(0);
    assert_eq!(
        VestingInstruction::try_from(&data).unwrap_err(),
        InstructionError::InvalidInstructionData
    );
}

#[test]
fn decode_claim_is_exactly_one_byte() {
    assert!(matches!(VestingInstruction::try_from(&[2u8]).unwrap(), VestingInstruction::Claim));
    assert_eq!(
        VestingInstruction::try_from(&[2u8, 0u8]).unwrap_err(),
        InstructionError::InvalidInstructionData
    );
}

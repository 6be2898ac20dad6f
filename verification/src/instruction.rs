//! The instruction wire format: one byte of opcode, then a fixed
//! little-endian payload.
//!
//! Opcode 0 (create): `[op, recipient_count, cliff:8, vesting:8, tge:2,
//! nonce:8]` followed by `recipient_count` entries of `[wallet:32, bp:2]`;
//! the length must be exactly `28 + 34 * recipient_count`.  Opcode 1 (fund):
//! `[op, amount:8]`, exactly 9 bytes.  Opcode 2 (distribute): exactly the
//! opcode byte.  Anything else is malformed.

use vstd::prelude::*;
use vstd::bytes::*;
use crate::errors::InstructionError;
use crate::state::{bytes_of, MAX_RECIPIENTS};
use crate::wire::{i64_from_le_bytes, spec_i64_from_le_bytes};

verus! {

/// One `(wallet, share)` pair of a create instruction.
#[derive(Debug)]
pub struct RecipientData {
    pub wallet: Vec<u8>,
    pub basis_points: u16,
}

/// A decoded instruction.
#[derive(Debug)]
pub enum VestingInstruction {
    InitializeVesting {
        recipients: Vec<RecipientData>,
        cliff_period: i64,
        vesting_period: i64,
        tge_basis_points: u16,
        nonce: u64,
    },
    Fund(u64),
    Claim,
}

/// Sum of the basis-point fields of the first `n` encoded recipient entries.
pub open spec fn spec_bp_sum(data: Seq<u8>, n: int) -> int
    decreases n,
{
    if n <= 0 {
        0
    } else {
        spec_bp_sum(data, n - 1) + spec_u16_from_le_bytes(
            data.subrange(28 + 34 * (n - 1) + 32, 28 + 34 * (n - 1) + 34),
        )
    }
}

/// The decoder's verdict, in the order the checks are made: which error a
/// byte string is rejected with, or `None` when it decodes.
pub open spec fn spec_decode_err(data: Seq<u8>) -> Option<InstructionError> {
    if data.len() == 0 {
        Some(InstructionError::InvalidInstructionData)
    } else if data[0] == 0 {
        if data.len() < 28 {
            Some(InstructionError::InvalidInstructionData)
        } else {
            let count = data[1] as int;
            if count == 0 || count > MAX_RECIPIENTS {
                Some(InstructionError::InvalidRecipientCount)
            } else if data.len() != 28 + 34 * count {
                Some(InstructionError::InvalidInstructionData)
            } else if spec_bp_sum(data, count) != 10000 {
                Some(InstructionError::InvalidTotalPercentage)
            } else {
                None
            }
        }
    } else if data[0] == 1 {
        if data.len() != 9 {
            Some(InstructionError::InvalidInstructionData)
        } else {
            None
        }
    } else if data[0] == 2 {
        if data.len() != 1 {
            Some(InstructionError::InvalidInstructionData)
        } else {
            None
        }
    } else {
        Some(InstructionError::InvalidInstructionData)
    }
}

/// Entry `i` of the decoded recipient list is what the bytes at its offset
/// hold.
pub open spec fn spec_recipient_data_decoded(r: RecipientData, data: Seq<u8>, i: int) -> bool {
    &&& r.wallet@ == data.subrange(28 + 34 * i, 28 + 34 * i + 32)
    &&& r.wallet@.len() == 32
    &&& r.basis_points == spec_u16_from_le_bytes(data.subrange(28 + 34 * i + 32, 28 + 34 * i + 34))
}

/// A decoded instruction is exactly what the bytes describe.
pub open spec fn spec_decode_ok(inst: VestingInstruction, data: Seq<u8>) -> bool {
    match inst {
        VestingInstruction::InitializeVesting {
            recipients,
            cliff_period,
            vesting_period,
            tge_basis_points,
            nonce,
        } => {
            &&& data[0] == 0
            &&& recipients@.len() == data[1] as int
            &&& cliff_period == spec_i64_from_le_bytes(data.subrange(2, 10))
            &&& vesting_period == spec_i64_from_le_bytes(data.subrange(10, 18))
            &&& tge_basis_points == spec_u16_from_le_bytes(data.subrange(18, 20))
            &&& nonce == spec_u64_from_le_bytes(data.subrange(20, 28))
            &&& forall|i: int|
                0 <= i < recipients@.len() ==> spec_recipient_data_decoded(
                    #[trigger] recipients@[i],
                    data,
                    i,
                )
        },
        VestingInstruction::Fund(amount) => {
            &&& data[0] == 1
            &&& amount == spec_u64_from_le_bytes(data.subrange(1, 9))
        },
        VestingInstruction::Claim => data[0] == 2,
    }
}

impl VestingInstruction {
    /// Decodes an instruction, rejecting any opcode, length or share-sum
    /// violation before any account is looked at.
    pub fn try_from(data: &[u8]) -> (r: Result<VestingInstruction, InstructionError>)
        ensures
            r is Err <==> spec_decode_err(data@) is Some,
            r matches Err(e) ==> Some(e) == spec_decode_err(data@),
            r matches Ok(inst) ==> spec_decode_ok(inst, data@),
    {
        if data.len() == 0 {
            return Err(InstructionError::InvalidInstructionData);
        }
        let op: u8 = data[0];
        if op == 0 {
            if data.len() < 28 {
                return Err(InstructionError::InvalidInstructionData);
            }
            let recipient_count: usize = data[1] as usize;
            if recipient_count == 0 || recipient_count > MAX_RECIPIENTS {
                return Err(InstructionError::InvalidRecipientCount);
            }
            if data.len() != 28 + 34 * recipient_count {
                return Err(InstructionError::InvalidInstructionData);
            }
            let cliff_period: i64 = i64_from_le_bytes(&data[2..10]);
            let vesting_period: i64 = i64_from_le_bytes(&data[10..18]);
            let tge_basis_points: u16 = u16_from_le_bytes(&data[18..20]);
            let nonce: u64 = u64_from_le_bytes(&data[20..28]);

            let mut recipients: Vec<RecipientData> = Vec::new();
            let mut total_basis_points: u32 = 0;
            let mut i: usize = 0;
            while i < recipient_count
                invariant
                    i <= recipient_count,
                    recipient_count <= MAX_RECIPIENTS,
                    data@.len() == 28 + 34 * recipient_count,
                    recipients@.len() == i,
                    total_basis_points <= 65535 * i,
                    total_basis_points == spec_bp_sum(data@, i as int),
                    forall|j: int|
                        0 <= j < i ==> spec_recipient_data_decoded(
                            #[trigger] recipients@[j],
                            data@,
                            j,
                        ),
                decreases recipient_count - i,
            {
                let off: usize = 28 + 34 * i;
                let wallet: Vec<u8> = bytes_of(data, off, off + 32);
                let basis_points: u16 = u16_from_le_bytes(&data[off + 32..off + 34]);
                recipients.push(RecipientData { wallet, basis_points });
                total_basis_points = total_basis_points + basis_points as u32;
                i = i + 1;
            }
            if total_basis_points != 10000 {
                return Err(InstructionError::InvalidTotalPercentage);
            }
            Ok(
                VestingInstruction::InitializeVesting {
                    recipients,
                    cliff_period,
                    vesting_period,
                    tge_basis_points,
                    nonce,
                },
            )
        } else if op == 1 {
            if data.len() != 9 {
                return Err(InstructionError::InvalidInstructionData);
            }
            let amount: u64 = u64_from_le_bytes(&data[1..9]);
            Ok(VestingInstruction::Fund(amount))
        } else if op == 2 {
            if data.len() != 1 {
                return Err(InstructionError::InvalidInstructionData);
            }
            Ok(VestingInstruction::Claim)
        } else {
            Err(InstructionError::InvalidInstructionData)
        }
    }
}

} // verus!

//! The instruction wire format: a one-byte tag, then the variant's payload.
use vstd::prelude::*;
use vstd::bytes::{spec_u64_from_le_bytes, spec_u64_to_le_bytes, lemma_auto_spec_u64_to_from_le_bytes};
use crate::codec::{borsh_tag_and_u64_to_vec, borsh_u64_from_slice};
use crate::error::FaucetError;

verus! {

/// The three faucet commands.
#[derive(Debug, Clone, Copy, PartialEq, Eq, Structural)]
pub enum FaucetInstruction {
    /// Writes the faucet record, naming the signing administrator.
    Initialize { distribution_amount: u64 },
    /// Pays the record's distribution amount to a requester.
    RequestTokens,
    /// Moves balance from the administrator into the faucet.
    ReplenishTokens { replenish_amount: u64 },
}

/// What an instruction buffer decodes to. Tags 0 and 2 need exactly eight
/// payload bytes; tag 1 ignores whatever follows it.
pub open spec fn instruction_decoding(bytes: Seq<u8>) -> Option<FaucetInstruction> {
    if bytes.len() == 0 {
        None
    } else if bytes[0] == 0 {
        if bytes.len() == 9 {
            Some(FaucetInstruction::Initialize {
                distribution_amount: spec_u64_from_le_bytes(bytes.subrange(1, 9)),
            })
        } else {
            None
        }
    } else if bytes[0] == 1 {
        Some(FaucetInstruction::RequestTokens)
    } else if bytes[0] == 2 {
        if bytes.len() == 9 {
            Some(FaucetInstruction::ReplenishTokens {
                replenish_amount: spec_u64_from_le_bytes(bytes.subrange(1, 9)),
            })
        } else {
            None
        }
    } else {
        None
    }
}

/// The wire form of an instruction: its tag, then its amount, if it has one,
/// as eight little-endian bytes.
pub open spec fn instruction_encoding(ix: FaucetInstruction) -> Seq<u8> {
    match ix {
        FaucetInstruction::Initialize { distribution_amount } => seq![0u8] + spec_u64_to_le_bytes(
            distribution_amount,
        ),
        FaucetInstruction::RequestTokens => seq![1u8],
        FaucetInstruction::ReplenishTokens { replenish_amount } => seq![2u8]
            + spec_u64_to_le_bytes(replenish_amount),
    }
}

impl FaucetInstruction {
    /// Encodes the instruction in its wire form.
    pub fn pack(&self) -> (r: Vec<u8>)
        ensures
            r@ == instruction_encoding(*self),
    {
        let packed = match self {
            FaucetInstruction::Initialize { distribution_amount } => borsh_tag_and_u64_to_vec(
                0,
                *distribution_amount,
            ),
            FaucetInstruction::RequestTokens => Ok(vec![1u8]),
            FaucetInstruction::ReplenishTokens { replenish_amount } => borsh_tag_and_u64_to_vec(
                2,
                *replenish_amount,
            ),
        };
        match packed {
            Ok(v) => v,
            Err(_) => Vec::new(),
        }
    }

    /// Decodes an instruction buffer; anything that does not decode is
    /// `InvalidInstructionData`.
    pub fn unpack(input: &[u8]) -> (r: Result<Self, FaucetError>)
        ensures
            match instruction_decoding(input@) {
                Some(ix) => r == Ok::<FaucetInstruction, FaucetError>(ix),
                None => r == Err::<FaucetInstruction, FaucetError>(
                    FaucetError::InvalidInstructionData,
                ),
            },
    {
        if input.len() == 0 {
            return Err(FaucetError::InvalidInstructionData);
        }
        let (head, rest) = input.split_at(1);
        let tag = head[0];
        assert(rest@ =~= input@.subrange(1, input@.len() as int));
        if tag == 0 {
            match borsh_u64_from_slice(rest) {
                Ok(v) => Ok(FaucetInstruction::Initialize { distribution_amount: v }),
                Err(_) => Err(FaucetError::InvalidInstructionData),
            }
        } else if tag == 1 {
            Ok(FaucetInstruction::RequestTokens)
        } else if tag == 2 {
            match borsh_u64_from_slice(rest) {
                Ok(v) => Ok(FaucetInstruction::ReplenishTokens { replenish_amount: v }),
                Err(_) => Err(FaucetError::InvalidInstructionData),
            }
        } else {
            Err(FaucetError::InvalidInstructionData)
        }
    }
}

/// A buffer whose first byte is not a known tag never decodes.
pub proof fn lemma_unknown_tag_rejected(bytes: Seq<u8>)
    requires
        bytes.len() > 0,
        bytes[0] > 2,
    ensures
        instruction_decoding(bytes) is None,
{
}

/// Decoding the wire form of an instruction gives the instruction back.
pub proof fn lemma_unpack_pack(ix: FaucetInstruction)
    ensures
        instruction_decoding(instruction_encoding(ix)) == Some(ix),
{
    lemma_auto_spec_u64_to_from_le_bytes();
    let e = instruction_encoding(ix);
    match ix {
        FaucetInstruction::Initialize { distribution_amount } => {
            assert(e.subrange(1, 9) =~= spec_u64_to_le_bytes(distribution_amount));
        },
        FaucetInstruction::RequestTokens => {},
        FaucetInstruction::ReplenishTokens { replenish_amount } => {
            assert(e.subrange(1, 9) =~= spec_u64_to_le_bytes(replenish_amount));
        },
    }
}

} // verus!

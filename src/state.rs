//! The faucet record kept in the faucet account's storage.
use vstd::prelude::*;
use vstd::bytes::{spec_u64_from_le_bytes, spec_u64_to_le_bytes, lemma_auto_spec_u64_to_from_le_bytes};
use crate::codec::{borsh_key_and_u64_from_slice, borsh_key_and_u64_to_vec};
use crate::error::FaucetError;

verus! {

/// Size in bytes of an encoded faucet record.
pub const STATE_LEN: usize = 40;

/// The persisted faucet record: who administers the faucet, and how much one
/// request pays out.
#[derive(Debug, Clone, Copy)]
pub struct FaucetState {
    pub admin: [u8; 32],
    pub distribution_amount: u64,
}

/// The encoding of a record: the 32 administrator bytes, then the amount as
/// eight little-endian bytes.
pub open spec fn state_encoding(admin: Seq<u8>, distribution_amount: u64) -> Seq<u8> {
    admin + spec_u64_to_le_bytes(distribution_amount)
}

/// What a storage buffer decodes to: the administrator bytes and the amount,
/// when the buffer holds exactly one record.
pub open spec fn state_decoding(bytes: Seq<u8>) -> Option<(Seq<u8>, u64)> {
    if bytes.len() == STATE_LEN {
        Some((bytes.subrange(0, 32), spec_u64_from_le_bytes(bytes.subrange(32, 40))))
    } else {
        None
    }
}

impl FaucetState {
    /// The record as plain values.
    pub open spec fn record(self) -> (Seq<u8>, u64) {
        (self.admin@, self.distribution_amount)
    }

    /// Encodes the record into its fixed 40-byte layout.
    pub fn encode(&self) -> (r: Vec<u8>)
        ensures
            r@ == state_encoding(self.admin@, self.distribution_amount),
            r@.len() == STATE_LEN,
    {
        proof {
            lemma_auto_spec_u64_to_from_le_bytes();
        }
        match borsh_key_and_u64_to_vec(&self.admin, self.distribution_amount) {
            Ok(v) => v,
            Err(_) => {
                // writing into a vector does not fail
                Vec::new()
            },
        }
    }

    /// Decodes a record; a buffer of any length but 40 is `MalformedState`.
    pub fn decode(bytes: &[u8]) -> (r: Result<FaucetState, FaucetError>)
        ensures
            match state_decoding(bytes@) {
                Some(rec) => r is Ok && r->Ok_0.record() == rec,
                None => r == Err::<FaucetState, FaucetError>(FaucetError::MalformedState),
            },
    {
        match borsh_key_and_u64_from_slice(bytes) {
            Ok(pair) => Ok(FaucetState { admin: pair.0, distribution_amount: pair.1 }),
            Err(_) => Err(FaucetError::MalformedState),
        }
    }
}

/// Decoding the encoding of a record gives the record back.
pub proof fn lemma_decode_encode(s: FaucetState)
    ensures
        state_decoding(state_encoding(s.admin@, s.distribution_amount)) == Some(s.record()),
{
    lemma_auto_spec_u64_to_from_le_bytes();
    let e = state_encoding(s.admin@, s.distribution_amount);
    assert(e.subrange(0, 32) =~= s.admin@);
    assert(e.subrange(32, 40) =~= spec_u64_to_le_bytes(s.distribution_amount));
}

} // verus!

//! Fixed-width binary encoding, through borsh.
use vstd::prelude::*;
use vstd::bytes::{spec_u64_from_le_bytes, spec_u64_to_le_bytes};
use borsh::BorshDeserialize;

verus! {

#[verifier::external_type_specification]
#[verifier::external_body]
pub struct ExIoError(std::io::Error);

/// Relies on borsh's `u64::try_from_slice`: it reads exactly eight bytes,
/// little-endian, and fails when the slice holds fewer or more.
#[verifier::external_body]
pub(crate) fn borsh_u64_from_slice(bytes: &[u8]) -> (r: Result<u64, std::io::Error>)
    ensures
        r is Ok <==> bytes@.len() == 8,
        r is Ok ==> r->Ok_0 == spec_u64_from_le_bytes(bytes@),
{
    u64::try_from_slice(bytes)
}

/// Relies on borsh's `try_from_slice` for the pair `([u8; 32], u64)`: the
/// array is read as its 32 raw bytes, then the integer as eight little-endian
/// bytes, and the call fails unless the slice holds exactly those 40 bytes.
#[verifier::external_body]
pub(crate) fn borsh_key_and_u64_from_slice(bytes: &[u8]) -> (r: Result<([u8; 32], u64), std::io::Error>)
    ensures
        r is Ok <==> bytes@.len() == 40,
        r is Ok ==> r->Ok_0.0@ == bytes@.subrange(0, 32),
        r is Ok ==> r->Ok_0.1 == spec_u64_from_le_bytes(bytes@.subrange(32, 40)),
{
    <([u8; 32], u64)>::try_from_slice(bytes)
}

/// Relies on `borsh::to_vec` for the pair `([u8; 32], u64)`: the 32 raw bytes
/// of the array, then the integer as eight little-endian bytes. Writing into a
/// `Vec<u8>` does not fail.
#[verifier::external_body]
pub(crate) fn borsh_key_and_u64_to_vec(key: &[u8; 32], value: u64) -> (r: Result<Vec<u8>, std::io::Error>)
    ensures
        r is Ok,
        r is Ok ==> r->Ok_0@ == key@ + spec_u64_to_le_bytes(value),
{
    borsh::to_vec(&(*key, value))
}

/// Relies on `borsh::to_vec` for the pair `(u8, u64)`: the byte, then the
/// integer as eight little-endian bytes. Writing into a `Vec<u8>` does not
/// fail.
#[verifier::external_body]
pub(crate) fn borsh_tag_and_u64_to_vec(tag: u8, value: u64) -> (r: Result<Vec<u8>, std::io::Error>)
    ensures
        r is Ok,
        r is Ok ==> r->Ok_0@ == seq![tag] + spec_u64_to_le_bytes(value),
{
    borsh::to_vec(&(tag, value))
}

} // verus!

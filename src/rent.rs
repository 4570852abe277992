//! The ledger's rent-exemption rule.
use vstd::prelude::*;
use solana_program::rent::Rent;

verus! {

#[verifier::external_type_specification]
pub struct ExRent(Rent);

/// Storage overhead, in bytes, that the rent rule charges every account.
pub const ACCOUNT_STORAGE_OVERHEAD: u64 = 128;

/// Whether the rent rule can price an account of `data_len` bytes: its
/// minimum balance starts from `(overhead + data_len) * lamports_per_byte_year`
/// in `u64` arithmetic.
pub open spec fn rent_computable(rent: Rent, data_len: int) -> bool {
    &&& ACCOUNT_STORAGE_OVERHEAD + data_len <= u64::MAX
    &&& (ACCOUNT_STORAGE_OVERHEAD + data_len) * rent.lamports_per_byte_year <= u64::MAX
}

/// Whether an account of `data_len` bytes holding `balance` is exempt from
/// rent. Storage that the rule cannot price in `u64` arithmetic is treated
/// as not exempt.
pub open spec fn exempt_from_rent(rent: Rent, balance: u64, data_len: int) -> bool {
    rent_computable(rent, data_len) && rent_exempt_of(rent, balance, data_len)
}

/// Decides `rent_computable` in executable code.
pub fn check_rent_computable(rent: &Rent, data_len: usize) -> (r: bool)
    ensures
        r == rent_computable(*rent, data_len as int),
{
    match ACCOUNT_STORAGE_OVERHEAD.checked_add(data_len as u64) {
        Some(bytes) => bytes.checked_mul(rent.lamports_per_byte_year).is_some(),
        None => false,
    }
}

/// Whether, by the rent rule, `balance` reaches the minimum balance
/// that `rent` sets for `data_len` bytes of storage.
pub uninterp spec fn rent_exempt_of(rent: Rent, balance: u64, data_len: int) -> bool;

/// Relies on solana_program's `Rent::is_exempt`: whether `balance` reaches
/// the minimum balance for `data_len` bytes of storage. Its integer arithmetic
/// overflows outside `rent_computable`.
#[verifier::external_body]
pub(crate) fn rent_is_exempt(rent: &Rent, balance: u64, data_len: usize) -> (r: bool)
    requires
        rent_computable(*rent, data_len as int),
    ensures
        r == rent_exempt_of(*rent, balance, data_len as int),
{
    rent.is_exempt(balance, data_len)
}

} // verus!

//! The account handles that the ledger runtime hands to one call.
use vstd::prelude::*;

verus! {

/// One account as supplied for a single call: its identity, its balance, the
/// program that owns its storage, whether it signed, and its storage bytes.
#[derive(Debug, Clone)]
pub struct AccountHandle {
    pub key: [u8; 32],
    pub balance: u64,
    pub owner: [u8; 32],
    pub is_signer: bool,
    pub data: Vec<u8>,
}

/// An account handle as plain values.
pub struct AccountView {
    pub key: Seq<u8>,
    pub balance: u64,
    pub owner: Seq<u8>,
    pub is_signer: bool,
    pub data: Seq<u8>,
}

impl View for AccountHandle {
    type V = AccountView;

    open spec fn view(&self) -> AccountView {
        AccountView {
            key: self.key@,
            balance: self.balance,
            owner: self.owner@,
            is_signer: self.is_signer,
            data: self.data@,
        }
    }
}

/// The plain values of a list of account handles.
pub open spec fn views(accounts: Seq<AccountHandle>) -> Seq<AccountView> {
    accounts.map_values(|a: AccountHandle| a@)
}

/// Whether two identities are the same.
pub fn same_key(a: &[u8; 32], b: &[u8; 32]) -> (r: bool)
    ensures
        r == (a@ == b@),
{
    let mut i: usize = 0;
    while i < 32
        invariant
            i <= 32,
            a@.len() == 32,
            b@.len() == 32,
            forall|j: int| 0 <= j < i ==> a@[j] == b@[j],
        decreases 32 - i,
    {
        if a[i] != b[i] {
            return false;
        }
        i = i + 1;
    }
    assert(a@ =~= b@);
    true
}

} // verus!

//! The faucet's instruction processor: validates the supplied accounts for
//! one command, then applies its whole effect or none of it.
use vstd::prelude::*;
use solana_program::rent::Rent;
use crate::account::{same_key, views, AccountHandle, AccountView};
use crate::error::FaucetError;
use crate::instructions::{instruction_decoding, FaucetInstruction};
use crate::rent::{check_rent_computable, rent_is_exempt, exempt_from_rent};
use crate::state::{lemma_decode_encode, state_decoding, state_encoding, FaucetState, STATE_LEN};

verus! {

/// A balance movement that the runtime must carry out on the program's behalf:
/// `amount` units from the account at position `from` to the one at `to`.
#[derive(Debug, Clone, Copy, PartialEq, Eq, Structural)]
pub struct TransferRequest {
    pub from: usize,
    pub to: usize,
    pub amount: u64,
}

/// `a` with its balance replaced.
pub open spec fn with_balance(a: AccountView, balance: u64) -> AccountView {
    AccountView { balance: balance, ..a }
}

/// `a` with its storage replaced.
pub open spec fn with_data(a: AccountView, data: Seq<u8>) -> AccountView {
    AccountView { data: data, ..a }
}

/// Whether a call left the accounts as `outcome` says: on success they are
/// the new accounts, on failure the error is returned and nothing changed.
pub open spec fn effect_matches(
    outcome: Result<Seq<AccountView>, FaucetError>,
    before: Seq<AccountHandle>,
    after: Seq<AccountHandle>,
    r: Result<(), FaucetError>,
) -> bool {
    match outcome {
        Ok(next) => r is Ok && views(after) == next,
        Err(e) => r == Err::<(), FaucetError>(e) && after == before,
    }
}

/// Moving `amount` balance units from position `from` to position `to`.
pub open spec fn transfer_outcome(
    accounts: Seq<AccountView>,
    from: int,
    to: int,
    amount: u64,
) -> Result<Seq<AccountView>, FaucetError> {
    if !(0 <= from < accounts.len() && 0 <= to < accounts.len()) {
        Err(FaucetError::InvalidAccountData)
    } else if accounts[from].balance < amount {
        Err(FaucetError::InsufficientFunds)
    } else if from == to {
        Ok(accounts)
    } else if accounts[to].balance + amount > u64::MAX {
        Err(FaucetError::ArithmeticOverflow)
    } else {
        Ok(
            accounts.update(
                from,
                with_balance(accounts[from], (accounts[from].balance - amount) as u64),
            ).update(to, with_balance(accounts[to], (accounts[to].balance + amount) as u64)),
        )
    }
}

/// Moves `amount` balance units between two of the accounts, checking both
/// ends first.
pub fn transfer_balance(accounts: &mut Vec<AccountHandle>, from: usize, to: usize, amount: u64) -> (r:
    Result<(), FaucetError>)
    ensures
        effect_matches(
            transfer_outcome(views(old(accounts)@), from as int, to as int, amount),
            old(accounts)@,
            final(accounts)@,
            r,
        ),
{
    if from >= accounts.len() || to >= accounts.len() {
        return Err(FaucetError::InvalidAccountData);
    }
    if accounts[from].balance < amount {
        return Err(FaucetError::InsufficientFunds);
    }
    if from == to {
        assert(views(accounts@) == views(old(accounts)@));
        return Ok(());
    }
    let to_balance = match accounts[to].balance.checked_add(amount) {
        Some(b) => b,
        None => {
            return Err(FaucetError::ArithmeticOverflow);
        },
    };
    let from_balance = accounts[from].balance - amount;
    accounts[from].balance = from_balance;
    accounts[to].balance = to_balance;
    proof {
        let before = views(old(accounts)@);
        let expect = before.update(from as int, with_balance(before[from as int], from_balance)).update(
            to as int,
            with_balance(before[to as int], to_balance),
        );
        assert(views(accounts@) =~= expect);
    }
    Ok(())
}

/// Initialize: the first three positions are faucet, administrator and rent
/// reference; `rent_exempt` is what the rent rule says of the faucet account.
/// The record is written over the first 40 bytes of the faucet's storage.
pub open spec fn initialize_outcome(
    program_id: Seq<u8>,
    accounts: Seq<AccountView>,
    distribution_amount: u64,
    rent_exempt: bool,
) -> Result<Seq<AccountView>, FaucetError> {
    if accounts.len() < 3 {
        Err(FaucetError::InvalidAccountData)
    } else if accounts[0].owner != program_id {
        Err(FaucetError::IncorrectProgramId)
    } else if !accounts[1].is_signer {
        Err(FaucetError::MissingRequiredSignature)
    } else if !rent_exempt {
        Err(FaucetError::AccountNotRentExempt)
    } else if accounts[0].data.len() < STATE_LEN {
        Err(FaucetError::InvalidAccountData)
    } else {
        let faucet = accounts[0];
        Ok(
            accounts.update(
                0,
                with_data(
                    faucet,
                    state_encoding(accounts[1].key, distribution_amount) + faucet.data.subrange(
                        STATE_LEN as int,
                        faucet.data.len() as int,
                    ),
                ),
            ),
        )
    }
}

/// Initialize with the rent rule's answer given: writes the faucet record
/// naming the signing administrator.
pub fn initialize_faucet(
    program_id: &[u8; 32],
    accounts: &mut Vec<AccountHandle>,
    distribution_amount: u64,
    rent_exempt: bool,
) -> (r: Result<(), FaucetError>)
    ensures
        effect_matches(
            initialize_outcome(program_id@, views(old(accounts)@), distribution_amount, rent_exempt),
            old(accounts)@,
            final(accounts)@,
            r,
        ),
{
    if accounts.len() < 3 {
        return Err(FaucetError::InvalidAccountData);
    }
    if !same_key(&accounts[0].owner, program_id) {
        return Err(FaucetError::IncorrectProgramId);
    }
    if !accounts[1].is_signer {
        return Err(FaucetError::MissingRequiredSignature);
    }
    if !rent_exempt {
        return Err(FaucetError::AccountNotRentExempt);
    }
    let old_len = accounts[0].data.len();
    if old_len < STATE_LEN {
        return Err(FaucetError::InvalidAccountData);
    }
    let state = FaucetState { admin: accounts[1].key, distribution_amount };
    let mut new_data = state.encode();
    let ghost encoded = new_data@;
    let mut i: usize = STATE_LEN;
    while i < old_len
        invariant
            STATE_LEN <= i <= old_len,
            accounts@.len() >= 3,
            old_len == accounts@[0].data@.len(),
            accounts@ == old(accounts)@,
            new_data@ == encoded + accounts@[0].data@.subrange(STATE_LEN as int, i as int),
        decreases old_len - i,
    {
        new_data.push(accounts[0].data[i]);
        i = i + 1;
        assert(new_data@ =~= encoded + accounts@[0].data@.subrange(STATE_LEN as int, i as int));
    }
    accounts[0].data = new_data;
    proof {
        let before = views(old(accounts)@);
        let expect = before.update(
            0,
            with_data(
                before[0],
                state_encoding(before[1].key, distribution_amount) + before[0].data.subrange(
                    STATE_LEN as int,
                    before[0].data.len() as int,
                ),
            ),
        );
        assert(views(accounts@) =~= expect);
    }
    Ok(())
}

/// Whether Initialize's account checks that come before the rent rule pass.
pub open spec fn initialize_authorized(program_id: Seq<u8>, accounts: Seq<AccountView>) -> bool {
    &&& accounts.len() >= 3
    &&& accounts[0].owner == program_id
    &&& accounts[1].is_signer
}

/// What Initialize does when it asks the rent rule itself: the outcome of
/// `initialize_outcome` for what the rent rule says of the faucet account.
pub open spec fn initialize_effect(
    program_id: Seq<u8>,
    rent: Rent,
    distribution_amount: u64,
    before: Seq<AccountHandle>,
    after: Seq<AccountHandle>,
    r: Result<(), FaucetError>,
) -> bool {
    let accounts = views(before);
    effect_matches(
        initialize_outcome(
            program_id,
            accounts,
            distribution_amount,
            exempt_from_rent(rent, accounts[0].balance, accounts[0].data.len() as int),
        ),
        before,
        after,
        r,
    )
}

/// Initialize, asking the rent rule about the faucet account.
pub fn process_initialize(
    program_id: &[u8; 32],
    accounts: &mut Vec<AccountHandle>,
    distribution_amount: u64,
    rent: &Rent,
) -> (r: Result<(), FaucetError>)
    ensures
        initialize_effect(
            program_id@,
            *rent,
            distribution_amount,
            old(accounts)@,
            final(accounts)@,
            r,
        ),
{
    let authorized = accounts.len() >= 3 && same_key(&accounts[0].owner, program_id)
        && accounts[1].is_signer;
    if !authorized {
        return initialize_faucet(program_id, accounts, distribution_amount, false);
    }
    let data_len = accounts[0].data.len();
    let exempt = if check_rent_computable(rent, data_len) {
        rent_is_exempt(rent, accounts[0].balance, data_len)
    } else {
        false
    };
    initialize_faucet(program_id, accounts, distribution_amount, exempt)
}

/// RequestTokens: exactly three positions, faucet then requester; the faucet
/// pays the recorded distribution amount to the requester.
pub open spec fn request_outcome(program_id: Seq<u8>, accounts: Seq<AccountView>) -> Result<
    Seq<AccountView>,
    FaucetError,
> {
    if accounts.len() != 3 {
        Err(FaucetError::InvalidAccountData)
    } else if accounts[0].owner != program_id {
        Err(FaucetError::IncorrectProgramId)
    } else {
        match state_decoding(accounts[0].data) {
            None => Err(FaucetError::MalformedState),
            Some(record) => transfer_outcome(accounts, 0, 1, record.1),
        }
    }
}

/// Pays one distribution from the faucet to the requester.
pub fn process_request_tokens(program_id: &[u8; 32], accounts: &mut Vec<AccountHandle>) -> (r:
    Result<(), FaucetError>)
    ensures
        effect_matches(
            request_outcome(program_id@, views(old(accounts)@)),
            old(accounts)@,
            final(accounts)@,
            r,
        ),
{
    if accounts.len() != 3 {
        return Err(FaucetError::InvalidAccountData);
    }
    if !same_key(&accounts[0].owner, program_id) {
        return Err(FaucetError::IncorrectProgramId);
    }
    let state = match FaucetState::decode(accounts[0].data.as_slice()) {
        Ok(s) => s,
        Err(e) => {
            return Err(e);
        },
    };
    transfer_balance(accounts, 0, 1, state.distribution_amount)
}

/// ReplenishTokens: the first three positions are faucet, administrator and
/// transfer reference; the recorded administrator must have signed. The
/// result is the transfer that the runtime is to carry out.
pub open spec fn replenish_outcome(
    program_id: Seq<u8>,
    accounts: Seq<AccountView>,
    replenish_amount: u64,
) -> Result<TransferRequest, FaucetError> {
    if accounts.len() < 3 {
        Err(FaucetError::InvalidAccountData)
    } else if accounts[0].owner != program_id {
        Err(FaucetError::IncorrectProgramId)
    } else if !accounts[1].is_signer {
        Err(FaucetError::MissingRequiredSignature)
    } else {
        match state_decoding(accounts[0].data) {
            None => Err(FaucetError::MalformedState),
            Some(record) => if record.0 != accounts[1].key {
                Err(FaucetError::InvalidAccountData)
            } else {
                Ok(TransferRequest { from: 1, to: 0, amount: replenish_amount })
            },
        }
    }
}

/// Checks a replenishment and returns the transfer from the administrator to
/// the faucet; the accounts themselves are not touched.
pub fn process_replenish_tokens(
    program_id: &[u8; 32],
    accounts: &Vec<AccountHandle>,
    replenish_amount: u64,
) -> (r: Result<TransferRequest, FaucetError>)
    ensures
        r == replenish_outcome(program_id@, views(accounts@), replenish_amount),
{
    if accounts.len() < 3 {
        return Err(FaucetError::InvalidAccountData);
    }
    if !same_key(&accounts[0].owner, program_id) {
        return Err(FaucetError::IncorrectProgramId);
    }
    if !accounts[1].is_signer {
        return Err(FaucetError::MissingRequiredSignature);
    }
    let state = match FaucetState::decode(accounts[0].data.as_slice()) {
        Ok(s) => s,
        Err(e) => {
            return Err(e);
        },
    };
    if !same_key(&state.admin, &accounts[1].key) {
        return Err(FaucetError::InvalidAccountData);
    }
    Ok(TransferRequest { from: 1, to: 0, amount: replenish_amount })
}

/// The success or failure of a call, without what it hands back.
pub open spec fn unit_of(r: Result<Option<TransferRequest>, FaucetError>) -> Result<(), FaucetError> {
    match r {
        Ok(_) => Ok(()),
        Err(e) => Err(e),
    }
}

/// What executing one instruction may do: the decoded command's outcome,
/// or `InvalidInstructionData` with nothing changed.
pub open spec fn instruction_effect(
    program_id: Seq<u8>,
    rent: Rent,
    instruction_data: Seq<u8>,
    before: Seq<AccountHandle>,
    after: Seq<AccountHandle>,
    r: Result<Option<TransferRequest>, FaucetError>,
) -> bool {
    match instruction_decoding(instruction_data) {
        None => r == Err::<Option<TransferRequest>, FaucetError>(
            FaucetError::InvalidInstructionData,
        ) && after == before,
        Some(FaucetInstruction::Initialize { distribution_amount }) => {
            &&& initialize_effect(
                program_id,
                rent,
                distribution_amount,
                before,
                after,
                unit_of(r),
            )
            &&& r is Ok ==> r->Ok_0 is None
        },
        Some(FaucetInstruction::RequestTokens) => {
            &&& effect_matches(
                request_outcome(program_id, views(before)),
                before,
                after,
                unit_of(r),
            )
            &&& r is Ok ==> r->Ok_0 is None
        },
        Some(FaucetInstruction::ReplenishTokens { replenish_amount }) => {
            &&& after == before
            &&& match replenish_outcome(program_id, views(before), replenish_amount) {
                Ok(t) => r == Ok::<Option<TransferRequest>, FaucetError>(Some(t)),
                Err(e) => r == Err::<Option<TransferRequest>, FaucetError>(e),
            }
        },
    }
}

/// Decodes one instruction and executes it against the accounts. A
/// replenishment hands back the transfer that the runtime is to carry out;
/// the other commands hand back none.
pub fn process_instruction(
    program_id: &[u8; 32],
    accounts: &mut Vec<AccountHandle>,
    instruction_data: &[u8],
    rent: &Rent,
) -> (r: Result<Option<TransferRequest>, FaucetError>)
    ensures
        instruction_effect(
            program_id@,
            *rent,
            instruction_data@,
            old(accounts)@,
            final(accounts)@,
            r,
        ),
{
    let instruction = match FaucetInstruction::unpack(instruction_data) {
        Ok(ix) => ix,
        Err(e) => {
            return Err(e);
        },
    };
    match instruction {
        FaucetInstruction::Initialize { distribution_amount } => {
            match process_initialize(program_id, accounts, distribution_amount, rent) {
                Ok(()) => Ok(None),
                Err(e) => Err(e),
            }
        },
        FaucetInstruction::RequestTokens => {
            match process_request_tokens(program_id, accounts) {
                Ok(()) => Ok(None),
                Err(e) => Err(e),
            }
        },
        FaucetInstruction::ReplenishTokens { replenish_amount } => {
            match process_replenish_tokens(program_id, accounts, replenish_amount) {
                Ok(t) => Ok(Some(t)),
                Err(e) => Err(e),
            }
        },
    }
}

/// An instruction whose first byte is no known tag fails with
/// `InvalidInstructionData` and changes no account.
pub proof fn lemma_unknown_instruction_fails(
    program_id: Seq<u8>,
    rent: Rent,
    instruction_data: Seq<u8>,
    before: Seq<AccountHandle>,
    after: Seq<AccountHandle>,
    r: Result<Option<TransferRequest>, FaucetError>,
)
    requires
        instruction_data.len() > 0,
        instruction_data[0] > 2,
        instruction_effect(program_id, rent, instruction_data, before, after, r),
    ensures
        r == Err::<Option<TransferRequest>, FaucetError>(FaucetError::InvalidInstructionData),
        after == before,
{
}

/// Initialize fails with `MissingRequiredSignature`, and writes nothing,
/// when the administrator account did not sign (once the account list is
/// long enough and the faucet belongs to the program, which are checked
/// first).
pub proof fn lemma_initialize_requires_admin_signature(
    program_id: Seq<u8>,
    rent: Rent,
    instruction_data: Seq<u8>,
    before: Seq<AccountHandle>,
    after: Seq<AccountHandle>,
    r: Result<Option<TransferRequest>, FaucetError>,
)
    requires
        instruction_decoding(instruction_data) matches Some(
            FaucetInstruction::Initialize { .. },
        ),
        before.len() >= 3,
        before[0].owner@ == program_id,
        !before[1].is_signer,
        instruction_effect(program_id, rent, instruction_data, before, after, r),
    ensures
        r == Err::<Option<TransferRequest>, FaucetError>(FaucetError::MissingRequiredSignature),
        after == before,
{
}

/// RequestTokens from a faucet whose balance is below its distribution amount
/// fails with `InsufficientFunds` and moves no balance (once the account list
/// and the faucet's owner and record have been accepted).
pub proof fn lemma_request_insufficient_funds(
    program_id: Seq<u8>,
    rent: Rent,
    instruction_data: Seq<u8>,
    before: Seq<AccountHandle>,
    after: Seq<AccountHandle>,
    r: Result<Option<TransferRequest>, FaucetError>,
)
    requires
        instruction_decoding(instruction_data) == Some(FaucetInstruction::RequestTokens),
        before.len() == 3,
        before[0].owner@ == program_id,
        state_decoding(before[0].data@) matches Some(record) && before[0].balance < record.1,
        instruction_effect(program_id, rent, instruction_data, before, after, r),
    ensures
        r == Err::<Option<TransferRequest>, FaucetError>(FaucetError::InsufficientFunds),
        after == before,
        after[0].balance == before[0].balance,
        after[1].balance == before[1].balance,
{
}

/// RequestTokens from a faucet holding `B >= D`, where `D` is its
/// distribution amount, succeeds: the faucet then holds `B - D`, the requester
/// `D` more than before, and the two together hold what they held before.
/// (The requester's new balance must fit in `u64`.)
pub proof fn lemma_request_pays_distribution(
    program_id: Seq<u8>,
    rent: Rent,
    instruction_data: Seq<u8>,
    before: Seq<AccountHandle>,
    after: Seq<AccountHandle>,
    r: Result<Option<TransferRequest>, FaucetError>,
)
    requires
        instruction_decoding(instruction_data) == Some(FaucetInstruction::RequestTokens),
        before.len() == 3,
        before[0].owner@ == program_id,
        state_decoding(before[0].data@) matches Some(record) && record.1 <= before[0].balance
            && before[1].balance + record.1 <= u64::MAX,
        instruction_effect(program_id, rent, instruction_data, before, after, r),
    ensures
        r == Ok::<Option<TransferRequest>, FaucetError>(None),
        after.len() == 3,
        after[0].balance == before[0].balance - state_decoding(before[0].data@)->Some_0.1,
        after[1].balance == before[1].balance + state_decoding(before[0].data@)->Some_0.1,
        after[0].balance + after[1].balance == before[0].balance + before[1].balance,
        after[0].data@ == before[0].data@,
        after[0].owner@ == before[0].owner@,
{
    let d = state_decoding(before[0].data@)->Some_0.1;
    let vb = views(before);
    let expect = vb.update(0, with_balance(vb[0], (vb[0].balance - d) as u64)).update(
        1,
        with_balance(vb[1], (vb[1].balance + d) as u64),
    );
    assert(views(after) == expect);
    assert(views(after)[0] == after[0]@);
    assert(views(after)[1] == after[1]@);
}

/// ReplenishTokens signed by an account other than the recorded administrator
/// fails with `InvalidAccountData` and leaves every balance as it was (once the
/// account list, the faucet's owner, the signature and the record have been
/// accepted).
pub proof fn lemma_replenish_rejects_non_admin(
    program_id: Seq<u8>,
    rent: Rent,
    instruction_data: Seq<u8>,
    before: Seq<AccountHandle>,
    after: Seq<AccountHandle>,
    r: Result<Option<TransferRequest>, FaucetError>,
)
    requires
        instruction_decoding(instruction_data) matches Some(
            FaucetInstruction::ReplenishTokens { .. },
        ),
        before.len() >= 3,
        before[0].owner@ == program_id,
        before[1].is_signer,
        state_decoding(before[0].data@) matches Some(record) && record.0 != before[1].key@,
        instruction_effect(program_id, rent, instruction_data, before, after, r),
    ensures
        r == Err::<Option<TransferRequest>, FaucetError>(FaucetError::InvalidAccountData),
        after == before,
        after[0].balance == before[0].balance,
{
}

/// After a successful Initialize, the faucet still belongs to the program, no
/// balance has moved, and storage of the record's size decodes to a record
/// naming the signing administrator and the requested amount.
pub proof fn lemma_initialize_then_decodes(
    program_id: Seq<u8>,
    rent: Rent,
    instruction_data: Seq<u8>,
    before: Seq<AccountHandle>,
    after: Seq<AccountHandle>,
    r: Result<Option<TransferRequest>, FaucetError>,
    distribution_amount: u64,
)
    requires
        instruction_decoding(instruction_data) == Some(
            FaucetInstruction::Initialize { distribution_amount },
        ),
        r is Ok,
        instruction_effect(program_id, rent, instruction_data, before, after, r),
    ensures
        after.len() == before.len(),
        after[0].owner@ == program_id,
        after[0].data@.len() == before[0].data@.len(),
        before[0].data@.len() == STATE_LEN ==> state_decoding(after[0].data@) == Some(
            (before[1].key@, distribution_amount),
        ),
        forall|i: int| 0 <= i < after.len() ==> #[trigger] after[i].balance == before[i].balance,
{
    lemma_decode_encode(FaucetState { admin: before[1].key, distribution_amount });
    let vb = views(before);
    let enc = state_encoding(vb[1].key, distribution_amount);
    let data = enc + vb[0].data.subrange(STATE_LEN as int, vb[0].data.len() as int);
    let expect = vb.update(0, with_data(vb[0], data));
    assert(unit_of(r) is Ok);
    assert(views(after) == expect);
    assert(views(after)[0] == after[0]@);
    assert(after[0].data@ == data);
    assert(data.subrange(0, 32) =~= enc.subrange(0, 32));
    assert(data.subrange(32, 40) =~= enc.subrange(32, 40));
    assert forall|i: int| 0 <= i < after.len() implies #[trigger] after[i].balance == before[i].balance by {
        assert(views(after)[i] == after[i]@);
        assert(views(before)[i] == before[i]@);
        assert(expect[i].balance == vb[i].balance);
    }
}

/// Initialize followed by RequestTokens on the same faucet: the requester is
/// paid exactly the amount that Initialize recorded, and the record reads back
/// unchanged. (The faucet's storage has the record's size, the faucet holds
/// at least that amount, and the requester's new balance fits in `u64`.)
pub proof fn lemma_initialize_then_request(
    program_id: Seq<u8>,
    rent: Rent,
    init_data: Seq<u8>,
    distribution_amount: u64,
    before_init: Seq<AccountHandle>,
    after_init: Seq<AccountHandle>,
    init_result: Result<Option<TransferRequest>, FaucetError>,
    request_data: Seq<u8>,
    before_request: Seq<AccountHandle>,
    after_request: Seq<AccountHandle>,
    request_result: Result<Option<TransferRequest>, FaucetError>,
)
    requires
        instruction_decoding(init_data) == Some(
            FaucetInstruction::Initialize { distribution_amount },
        ),
        before_init[0].data@.len() == STATE_LEN,
        init_result is Ok,
        instruction_effect(program_id, rent, init_data, before_init, after_init, init_result),
        instruction_decoding(request_data) == Some(FaucetInstruction::RequestTokens),
        before_request.len() == 3,
        before_request[0] == after_init[0],
        distribution_amount <= before_request[0].balance,
        before_request[1].balance + distribution_amount <= u64::MAX,
        instruction_effect(
            program_id,
            rent,
            request_data,
            before_request,
            after_request,
            request_result,
        ),
    ensures
        request_result == Ok::<Option<TransferRequest>, FaucetError>(None),
        after_request[0].balance == before_request[0].balance - distribution_amount,
        after_request[1].balance == before_request[1].balance + distribution_amount,
        state_decoding(after_request[0].data@) == Some(
            (before_init[1].key@, distribution_amount),
        ),
{
    lemma_initialize_then_decodes(
        program_id,
        rent,
        init_data,
        before_init,
        after_init,
        init_result,
        distribution_amount,
    );
    lemma_request_pays_distribution(
        program_id,
        rent,
        request_data,
        before_request,
        after_request,
        request_result,
    );
}

/// ReplenishTokens by the recorded administrator asks for a transfer of the
/// amount from the administrator to the faucet; carried out, that transfer
/// raises the faucet's balance by the amount and lowers the administrator's
/// by the same. (The administrator holds at least the amount, and the
/// faucet's new balance fits in `u64`.)
pub proof fn lemma_replenish_moves_amount(
    program_id: Seq<u8>,
    rent: Rent,
    instruction_data: Seq<u8>,
    replenish_amount: u64,
    before: Seq<AccountHandle>,
    after: Seq<AccountHandle>,
    r: Result<Option<TransferRequest>, FaucetError>,
)
    requires
        instruction_decoding(instruction_data) == Some(
            FaucetInstruction::ReplenishTokens { replenish_amount },
        ),
        before.len() >= 3,
        before[0].owner@ == program_id,
        before[1].is_signer,
        state_decoding(before[0].data@) matches Some(record) && record.0 == before[1].key@,
        replenish_amount <= before[1].balance,
        before[0].balance + replenish_amount <= u64::MAX,
        instruction_effect(program_id, rent, instruction_data, before, after, r),
    ensures
        r == Ok::<Option<TransferRequest>, FaucetError>(
            Some(TransferRequest { from: 1, to: 0, amount: replenish_amount }),
        ),
        after == before,
        transfer_outcome(views(after), 1, 0, replenish_amount) matches Ok(settled) && settled[0].balance
            == before[0].balance + replenish_amount && settled[1].balance == before[1].balance
            - replenish_amount,
{
    assert(views(before)[0] == before[0]@);
    assert(views(before)[1] == before[1]@);
}

} // verus!

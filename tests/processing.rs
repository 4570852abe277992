use simple_token_faucet::account::{same_key, AccountHandle};
use simple_token_faucet::error::FaucetError;
use simple_token_faucet::instructions::FaucetInstruction;
use simple_token_faucet::processor::{
    initialize_faucet, process_initialize, process_replenish_tokens, transfer_balance,
    TransferRequest,
};
use simple_token_faucet::rent::check_rent_computable;
use simple_token_faucet::state::{FaucetState, STATE_LEN};
use simple_token_faucet::{process_instruction, process_request_tokens};
use solana_program::rent::Rent;

const PROGRAM: [u8; 32] = [1; 32];
const ADMIN: [u8; 32] = [2; 32];
const OTHER: [u8; 32] = [3; 32];
const USER: [u8; 32] = [4; 32];
const FAUCET: [u8; 32] = [5; 32];

fn account(key: [u8; 32], balance: u64, owner: [u8; 32], is_signer: bool, data: Vec<u8>) -> AccountHandle {
    AccountHandle { key, balance, owner, is_signer, data }
}

fn record(admin: [u8; 32], distribution_amount: u64) -> Vec<u8> {
    FaucetState { admin, distribution_amount }.encode()
}

fn balances(accounts: &[AccountHandle]) -> Vec<u64> {
    accounts.iter().map(|a| a.balance).collect()
}

fn datas(accounts: &[AccountHandle]) -> Vec<Vec<u8>> {
    accounts.iter().map(|a| a.data.clone()).collect()
}

fn init_accounts(faucet_balance: u64, admin_signs: bool) -> Vec<AccountHandle> {
    vec![
        account(FAUCET, faucet_balance, PROGRAM, false, vec![0; STATE_LEN]),
        account(ADMIN, 100_000_000, [0; 32], admin_signs, vec![]),
        account([6; 32], 1, [0; 32], false, vec![]),
    ]
}

fn request_accounts(faucet_balance: u64, distribution_amount: u64, user_balance: u64) -> Vec<AccountHandle> {
    vec![
        account(FAUCET, faucet_balance, PROGRAM, false, record(ADMIN, distribution_amount)),
        account(USER, user_balance, [0; 32], false, vec![]),
        account([0; 32], 1, [0; 32], false, vec![]),
    ]
}

fn replenish_accounts(signer: [u8; 32]) -> Vec<AccountHandle> {
    vec![
        account(FAUCET, 10_100_000, PROGRAM, false, record(ADMIN, 1000)),
        account(signer, 1_000_000_000, [0; 32], true, vec![]),
        account([0; 32], 1, [0; 32], false, vec![]),
    ]
}

#[test]
fn initialize_writes_record() {
    let rent = Rent::default();
    let mut accounts = init_accounts(rent.minimum_balance(STATE_LEN), true);
    let data = FaucetInstruction::Initialize { distribution_amount: 1000 }.pack();
    assert_eq!(process_instruction(&PROGRAM, &mut accounts, &data, &rent), Ok(None));
    let state = FaucetState::decode(&accounts[0].data).unwrap();
    assert_eq!(state.distribution_amount, 1000);
    assert_eq!(state.admin, ADMIN);
}

#[test]
fn initialize_keeps_bytes_past_the_record() {
    let mut accounts = init_accounts(10_000_000, true);
    accounts[0].data = vec![9; STATE_LEN + 3];
    assert_eq!(initialize_faucet(&PROGRAM, &mut accounts, 77, true), Ok(()));
    assert_eq!(&accounts[0].data[..STATE_LEN], &record(ADMIN, 77)[..]);
    assert_eq!(&accounts[0].data[STATE_LEN..], &[9, 9, 9]);
}

#[test]
fn initialize_without_admin_signature_changes_nothing() {
    let rent = Rent::default();
    let mut accounts = init_accounts(rent.minimum_balance(STATE_LEN), false);
    let before = datas(&accounts);
    let data = FaucetInstruction::Initialize { distribution_amount: 1000 }.pack();
    assert_eq!(
        process_instruction(&PROGRAM, &mut accounts, &data, &rent),
        Err(FaucetError::MissingRequiredSignature)
    );
    assert_eq!(datas(&accounts), before);
}

#[test]
fn initialize_with_foreign_faucet_fails() {
    let mut accounts = init_accounts(10_000_000, true);
    accounts[0].owner = OTHER;
    assert_eq!(
        process_initialize(&PROGRAM, &mut accounts, 1000, &Rent::default()),
        Err(FaucetError::IncorrectProgramId)
    );
}

#[test]
fn initialize_with_too_few_accounts_fails() {
    let mut accounts = init_accounts(10_000_000, true);
    accounts.pop();
    assert_eq!(
        process_initialize(&PROGRAM, &mut accounts, 1000, &Rent::default()),
        Err(FaucetError::InvalidAccountData)
    );
}

#[test]
fn initialize_below_rent_floor_fails() {
    let rent = Rent::default();
    let mut accounts = init_accounts(rent.minimum_balance(STATE_LEN) - 1, true);
    let before = datas(&accounts);
    assert_eq!(
        process_initialize(&PROGRAM, &mut accounts, 1000, &rent),
        Err(FaucetError::AccountNotRentExempt)
    );
    assert_eq!(datas(&accounts), before);
}

#[test]
fn initialize_into_small_storage_fails() {
    let mut accounts = init_accounts(10_000_000, true);
    accounts[0].data = vec![0; STATE_LEN - 1];
    assert_eq!(
        initialize_faucet(&PROGRAM, &mut accounts, 1000, true),
        Err(FaucetError::InvalidAccountData)
    );
    assert_eq!(accounts[0].data, vec![0; STATE_LEN - 1]);
}

#[test]
fn initialize_with_unpriceable_rent_is_not_exempt() {
    let rent = Rent { lamports_per_byte_year: u64::MAX, ..Rent::default() };
    assert!(!check_rent_computable(&rent, STATE_LEN));
    assert!(check_rent_computable(&Rent::default(), STATE_LEN));
    let mut accounts = init_accounts(10_000_000, true);
    assert_eq!(
        process_initialize(&PROGRAM, &mut accounts, 1000, &rent),
        Err(FaucetError::AccountNotRentExempt)
    );
}

#[test]
fn request_after_initialize_on_larger_storage_fails() {
    let rent = Rent::default();
    let mut accounts = init_accounts(rent.minimum_balance(STATE_LEN + 8) + 5000, true);
    accounts[0].data = vec![0; STATE_LEN + 8];
    let data = FaucetInstruction::Initialize { distribution_amount: 1000 }.pack();
    assert_eq!(process_instruction(&PROGRAM, &mut accounts, &data, &rent), Ok(None));
    assert_eq!(&accounts[0].data[..STATE_LEN], &record(ADMIN, 1000)[..]);
    assert_eq!(accounts[0].data.len(), STATE_LEN + 8);
    let faucet_balance = accounts[0].balance;
    let mut accounts = vec![
        accounts.remove(0),
        account(USER, 7, [0; 32], false, vec![]),
        account([0; 32], 1, [0; 32], false, vec![]),
    ];
    let data = FaucetInstruction::RequestTokens.pack();
    assert_eq!(
        process_instruction(&PROGRAM, &mut accounts, &data, &rent),
        Err(FaucetError::MalformedState)
    );
    assert_eq!(balances(&accounts), vec![faucet_balance, 7, 1]);
}

#[test]
fn replenish_with_oversized_record_fails() {
    let mut accounts = replenish_accounts(ADMIN);
    accounts[0].data.push(0);
    assert_eq!(process_replenish_tokens(&PROGRAM, &accounts, 5000), Err(FaucetError::MalformedState));
}

#[test]
fn initialize_then_request_pays_recorded_amount() {
    let rent = Rent::default();
    let mut accounts = init_accounts(rent.minimum_balance(STATE_LEN) + 10_000, true);
    let data = FaucetInstruction::Initialize { distribution_amount: 2500 }.pack();
    assert_eq!(process_instruction(&PROGRAM, &mut accounts, &data, &rent), Ok(None));
    let faucet_balance = accounts[0].balance;
    let mut accounts = vec![
        accounts.remove(0),
        account(USER, 7, [0; 32], false, vec![]),
        account([0; 32], 1, [0; 32], false, vec![]),
    ];
    let data = FaucetInstruction::RequestTokens.pack();
    assert_eq!(process_instruction(&PROGRAM, &mut accounts, &data, &rent), Ok(None));
    assert_eq!(accounts[0].balance, faucet_balance - 2500);
    assert_eq!(accounts[1].balance, 2507);
    assert_eq!(FaucetState::decode(&accounts[0].data).unwrap().distribution_amount, 2500);
}

#[test]
fn request_pays_distribution_amount() {
    let mut accounts = request_accounts(10_100_000, 1000, 500);
    assert_eq!(process_request_tokens(&PROGRAM, &mut accounts), Ok(()));
    assert_eq!(accounts[0].balance, 10_099_000);
    assert_eq!(accounts[1].balance, 1500);
    assert_eq!(accounts[0].balance + accounts[1].balance, 10_100_000 + 500);
}

#[test]
fn request_of_whole_balance_succeeds() {
    let mut accounts = request_accounts(1000, 1000, 0);
    assert_eq!(process_request_tokens(&PROGRAM, &mut accounts), Ok(()));
    assert_eq!(balances(&accounts)[..2], [0, 1000]);
}

#[test]
fn request_with_insufficient_funds_moves_nothing() {
    let mut accounts = request_accounts(999, 1000, 5);
    let data = FaucetInstruction::RequestTokens.pack();
    assert_eq!(
        process_instruction(&PROGRAM, &mut accounts, &data, &Rent::default()),
        Err(FaucetError::InsufficientFunds)
    );
    assert_eq!(balances(&accounts), vec![999, 5, 1]);
}

#[test]
fn request_with_wrong_account_count_fails() {
    let mut accounts = request_accounts(10_000, 1000, 0);
    accounts.pop();
    assert_eq!(process_request_tokens(&PROGRAM, &mut accounts), Err(FaucetError::InvalidAccountData));
    let mut accounts = request_accounts(10_000, 1000, 0);
    accounts.push(account(OTHER, 0, [0; 32], false, vec![]));
    assert_eq!(process_request_tokens(&PROGRAM, &mut accounts), Err(FaucetError::InvalidAccountData));
}

#[test]
fn request_from_foreign_faucet_fails() {
    let mut accounts = request_accounts(10_000, 1000, 0);
    accounts[0].owner = OTHER;
    assert_eq!(process_request_tokens(&PROGRAM, &mut accounts), Err(FaucetError::IncorrectProgramId));
}

#[test]
fn request_with_malformed_record_fails() {
    let mut accounts = request_accounts(10_000, 1000, 0);
    accounts[0].data = vec![0; 12];
    assert_eq!(process_request_tokens(&PROGRAM, &mut accounts), Err(FaucetError::MalformedState));
    assert_eq!(balances(&accounts), vec![10_000, 0, 1]);
}

#[test]
fn request_overflowing_requester_fails() {
    let mut accounts = request_accounts(10_000, 1000, u64::MAX - 999);
    assert_eq!(process_request_tokens(&PROGRAM, &mut accounts), Err(FaucetError::ArithmeticOverflow));
    assert_eq!(balances(&accounts), vec![10_000, u64::MAX - 999, 1]);
}

#[test]
fn replenish_by_admin_requests_transfer() {
    let accounts = replenish_accounts(ADMIN);
    assert_eq!(
        process_replenish_tokens(&PROGRAM, &accounts, 5000),
        Ok(TransferRequest { from: 1, to: 0, amount: 5000 })
    );
}

#[test]
fn replenish_by_non_admin_fails() {
    let mut accounts = replenish_accounts(OTHER);
    let data = FaucetInstruction::ReplenishTokens { replenish_amount: 5000 }.pack();
    assert_eq!(
        process_instruction(&PROGRAM, &mut accounts, &data, &Rent::default()),
        Err(FaucetError::InvalidAccountData)
    );
    assert_eq!(accounts[0].balance, 10_100_000);
}

#[test]
fn replenish_without_signature_fails() {
    let mut accounts = replenish_accounts(ADMIN);
    accounts[1].is_signer = false;
    assert_eq!(
        process_replenish_tokens(&PROGRAM, &accounts, 5000),
        Err(FaucetError::MissingRequiredSignature)
    );
}

#[test]
fn replenish_from_foreign_faucet_fails() {
    let mut accounts = replenish_accounts(ADMIN);
    accounts[0].owner = OTHER;
    assert_eq!(process_replenish_tokens(&PROGRAM, &accounts, 5000), Err(FaucetError::IncorrectProgramId));
}

#[test]
fn replenish_with_malformed_record_fails() {
    let mut accounts = replenish_accounts(ADMIN);
    accounts[0].data = vec![];
    assert_eq!(process_replenish_tokens(&PROGRAM, &accounts, 5000), Err(FaucetError::MalformedState));
}

#[test]
fn replenish_with_too_few_accounts_fails() {
    let mut accounts = replenish_accounts(ADMIN);
    accounts.truncate(2);
    assert_eq!(process_replenish_tokens(&PROGRAM, &accounts, 5000), Err(FaucetError::InvalidAccountData));
}

#[test]
fn unknown_instruction_changes_nothing() {
    let mut accounts = request_accounts(10_000, 1000, 0);
    assert_eq!(
        process_instruction(&PROGRAM, &mut accounts, &[7, 0, 0], &Rent::default()),
        Err(FaucetError::InvalidInstructionData)
    );
    assert_eq!(
        process_instruction(&PROGRAM, &mut accounts, &[], &Rent::default()),
        Err(FaucetError::InvalidInstructionData)
    );
    assert_eq!(balances(&accounts), vec![10_000, 0, 1]);
}

#[test]
fn scenario_request_from_funded_faucet() {
    let mut accounts = request_accounts(10_100_000, 1000, 0);
    let data = FaucetInstruction::RequestTokens.pack();
    assert_eq!(process_instruction(&PROGRAM, &mut accounts, &data, &Rent::default()), Ok(None));
    assert_eq!(accounts[0].balance, 10_099_000);
    assert_eq!(accounts[1].balance, 1000);
}

#[test]
fn scenario_replenish_moves_exact_amount() {
    let mut accounts = replenish_accounts(ADMIN);
    let data = FaucetInstruction::ReplenishTokens { replenish_amount: 5000 }.pack();
    let t = process_instruction(&PROGRAM, &mut accounts, &data, &Rent::default()).unwrap().unwrap();
    assert_eq!(transfer_balance(&mut accounts, t.from, t.to, t.amount), Ok(()));
    assert_eq!(accounts[0].balance, 10_105_000);
    assert_eq!(accounts[1].balance, 999_995_000);
}

#[test]
fn transfer_checks_both_ends() {
    let mut accounts = request_accounts(100, 1, 0);
    assert_eq!(transfer_balance(&mut accounts, 0, 3, 1), Err(FaucetError::InvalidAccountData));
    assert_eq!(transfer_balance(&mut accounts, 0, 1, 101), Err(FaucetError::InsufficientFunds));
    assert_eq!(transfer_balance(&mut accounts, 0, 0, 50), Ok(()));
    assert_eq!(balances(&accounts), vec![100, 0, 1]);
    accounts[1].balance = u64::MAX;
    assert_eq!(transfer_balance(&mut accounts, 0, 1, 1), Err(FaucetError::ArithmeticOverflow));
}

#[test]
fn same_key_compares_all_bytes() {
    let mut k = ADMIN;
    assert!(same_key(&ADMIN, &k));
    k[31] = 0;
    assert!(!same_key(&ADMIN, &k));
}

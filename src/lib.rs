//! An on-ledger token faucet: instruction decoding, the persisted faucet
//! record, and the state machine that executes the three faucet commands
//! against a list of account handles.

pub mod account;
pub mod codec;
pub mod error;
pub mod instructions;
pub mod processor;
pub mod rent;
pub mod state;

pub use processor::{process_instruction, process_request_tokens};

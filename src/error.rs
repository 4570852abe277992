use vstd::prelude::*;

verus! {

/// The typed failures of the faucet program.
#[derive(Debug, Clone, Copy, PartialEq, Eq, Structural)]
pub enum FaucetError {
    /// The instruction bytes are empty, carry an unknown tag, or a bad payload.
    InvalidInstructionData,
    /// The faucet account's storage is not owned by this program.
    IncorrectProgramId,
    /// A required signer did not sign.
    MissingRequiredSignature,
    /// The faucet account is below the rent-exemption floor.
    AccountNotRentExempt,
    /// Too few accounts were supplied, the faucet's storage cannot hold the
    /// record, or the signer is not the administrator.
    InvalidAccountData,
    /// The faucet does not hold enough balance for a payout.
    InsufficientFunds,
    /// The faucet record in storage does not decode.
    MalformedState,
    /// Crediting a balance would leave the range of `u64`.
    ArithmeticOverflow,
}

} // verus!

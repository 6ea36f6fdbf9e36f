//! Failures that the library reports to its caller.

use vstd::prelude::*;

verus! {

/// Why a byte buffer, an address or an account was refused.
#[derive(Clone, Copy, Debug, PartialEq, Eq, Structural)]
pub enum SwapError {
    /// The bytes name no known operation, or stop short of its payload.
    InvalidInstruction,
    /// The bytes are no configuration record: a wrong length or an unknown
    /// curve discriminant.
    InvalidAccountData,
    /// The seeds and the bump give no valid program address.
    InvalidProgramAddress,
    /// The account is not owned by the token program that was named.
    IncorrectTokenProgramId,
    /// The account's data is no initialized token account.
    ExpectedAccount,
    /// The account's data is no initialized token mint.
    ExpectedMint,
    /// The program that was named is not the token program.
    IncorrectProgramId,
}

} // verus!

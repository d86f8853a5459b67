//! Why a transaction is refused.

use vstd::prelude::*;
use solana_program::program_error::ProgramError;

verus! {

/// `solana_program`'s error value. It is carried through as the runtime
/// reported it; nothing here looks inside.
#[verifier::external_type_specification]
#[verifier::external_body]
pub struct ExProgramError(solana_program::program_error::ProgramError);

/// The one error the program itself raises.
#[derive(Clone, Copy, Debug, PartialEq, Eq, Structural)]
pub enum ErrorCode {
    /// A zero quantity was given where value has to move.
    InvalidAmount,
}

impl ErrorCode {
    /// What the error says to a user.
    pub open spec fn spec_message(self) -> Seq<char> {
        match self {
            ErrorCode::InvalidAmount => "Invalid amount"@,
        }
    }

    /// The text shown for this error.
    pub fn message(&self) -> (text: String)
        ensures
            text@ == self.spec_message(),
    {
        match self {
            ErrorCode::InvalidAmount => "Invalid amount".to_owned(),
        }
    }
}

/// Every way a transaction can end without effect.
#[derive(Debug, PartialEq, Eq)]
pub enum TxError {
    /// The program's own check refused the arguments.
    Program(ErrorCode),
    /// The record that was to be created already holds data.
    AccountInUse,
    /// The balance to draw from holds less than the amount.
    InsufficientFunds,
    /// A balance or the supply would pass the largest 64-bit quantity.
    Overflow,
    /// The ledger runtime reported an error of its own.
    Runtime(ProgramError),
}

} // verus!

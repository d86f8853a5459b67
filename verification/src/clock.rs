//! The ledger's clock.

use vstd::prelude::*;
use solana_program::clock::Clock;
use solana_program::program_error::ProgramError;
use solana_program::sysvar::Sysvar;

verus! {

/// Asks the runtime for the ledger's time with `solana_program`'s
/// `Clock::get` and hands on the `unix_timestamp` of the clock it returns, or
/// the error it returns.
///
/// Nothing is promised of the answer: the time is the runtime's to tell, and
/// where no runtime answers the call returns an error.
#[verifier::external_body]
pub(crate) fn unix_timestamp() -> (clock: Result<i64, ProgramError>) {
    match Clock::get() {
        Ok(clock) => Ok(clock.unix_timestamp),
        Err(e) => Err(e),
    }
}

} // verus!

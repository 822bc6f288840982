use solana_program::clock::Clock;
use solana_program::program_error::ProgramError;
use solana_program::sysvar::Sysvar;
use vstd::prelude::*;

verus! {

/// `solana_program`'s `ProgramError`, the reason that the runtime gives when
/// it fails. The registry hands such a value on and never looks into it.
#[verifier::external_type_specification]
#[verifier::external_body]
pub struct ExProgramError(solana_program::program_error::ProgramError);

/// `Clock::get`, the runtime's clock sysvar, reduced to its `unix_timestamp`.
/// The value is whatever the runtime reports, and outside a runtime that
/// serves the sysvar the call fails: nothing is claimed of the result.
#[verifier::external_body]
pub(crate) fn ledger_time() -> (now: Result<i64, ProgramError>) {
    match Clock::get() {
        Ok(clock) => Ok(clock.unix_timestamp),
        Err(error) => Err(error),
    }
}

} // verus!

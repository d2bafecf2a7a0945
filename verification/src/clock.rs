//! The clock source: the one place where the ledger library reads the time.

use crate::error::PortfolioError;
use solana_program::clock::Clock;
use solana_program::program_error::ProgramError;
use solana_program::sysvar::Sysvar;
use vstd::prelude::*;

verus! {

/// The error type of `solana_program`, taken from a failed clock read as an opaque
/// value. Nothing is claimed about its contents.
#[verifier::external_type_specification]
#[verifier::external_body]
pub struct ExProgramError(solana_program::program_error::ProgramError);

/// Calls `Clock::get` of `solana_program` and hands on the unix timestamp of the clock
/// that it returns, or the error that it fails with. Nothing is claimed of the outcome:
/// the time is what the runtime reports, and where no runtime provides the clock the
/// call fails.
#[verifier::external_body]
fn read_clock() -> (reading: Result<i64, ProgramError>) {
    Clock::get().map(|clock| clock.unix_timestamp)
}

/// Reads the clock source: the current time in seconds since the Unix epoch. A clock
/// that cannot be read is reported as [`PortfolioError::ExternalEffectFailed`].
pub fn current_unix_timestamp() -> (now: Result<i64, PortfolioError>)
    ensures
        now matches Err(e) ==> e == PortfolioError::ExternalEffectFailed,
{
    timestamp_of_reading(read_clock())
}

/// What a reading of the clock means to the ledger: a timestamp that was read is handed
/// on as it is, and a failed read, whatever its error, is reported as
/// [`PortfolioError::ExternalEffectFailed`].
pub fn timestamp_of_reading(reading: Result<i64, ProgramError>) -> (now: Result<
    i64,
    PortfolioError,
>)
    ensures
        reading matches Ok(timestamp) ==> now == Ok::<i64, PortfolioError>(timestamp),
        reading is Err ==> now == Err::<i64, PortfolioError>(PortfolioError::ExternalEffectFailed),
{
    match reading {
        Ok(timestamp) => Ok(timestamp),
        Err(_) => Err(PortfolioError::ExternalEffectFailed),
    }
}

} // verus!

//! The ledger's clock. What stands here is taken on trust from the ledger's
//! runtime: none of it is proved.

use vstd::prelude::*;
use anchor_lang::prelude::{Clock, ProgramError, SolanaSysvar};

verus! {

/// The error of the ledger's runtime, `ProgramError` of `anchor_lang`. It is
/// handed on as it came and never looked into.
#[verifier::external_type_specification]
#[verifier::external_body]
pub struct ExProgramError(anchor_lang::prelude::ProgramError);

/// Reads the ledger's clock with `Clock::get`, the `Sysvar::get` of
/// `solana_program` that `anchor_lang` hands on, and returns the clock's
/// `unix_timestamp`, or the error that `Clock::get` returned. The time is
/// the ledger's to tell: nothing is claimed of what comes back.
#[verifier::external_body]
pub(crate) fn clock_unix_timestamp() -> (r: Result<i64, ProgramError>) {
    match Clock::get() {
        Ok(clock) => Ok(clock.unix_timestamp),
        Err(e) => Err(e),
    }
}

} // verus!

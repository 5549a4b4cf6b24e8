//! One function for each operation: it checks the referenced records, runs
//! the operation and writes the records back.

use crate::account::AccountInfo;
use crate::address::Address;
use crate::error::ErrorCode;
use crate::increment::{increment_outcome, Increment};
use crate::ledger::Ledger;
use vstd::prelude::*;

pub use crate::increment_once::global::create;

verus! {

/// Carries out an unrestricted `increment`. It takes no arguments, so
/// `ix_data` is not read.
pub fn increment(
    program_id: &Address,
    ledger: &mut Ledger,
    accounts: &[AccountInfo],
    ix_data: &[u8],
) -> (r: Result<(), ErrorCode>)
    ensures
        match increment_outcome(old(ledger)@, *program_id, accounts@, ix_data@) {
            Ok(s) => r is Ok && final(ledger)@ == s,
            Err(e) => r == Err::<(), ErrorCode>(e) && final(ledger)@ == old(ledger)@,
        },
{
    let mut ctx = match Increment::try_accounts(program_id, ledger, accounts, ix_data) {
        Ok(ctx) => ctx,
        Err(e) => {
            return Err(e);
        },
    };
    match crate::increment::increment(&mut ctx) {
        Ok(()) => {},
        Err(e) => {
            return Err(e);
        },
    }
    ctx.exit(program_id, ledger)
}

} // verus!

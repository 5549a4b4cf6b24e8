//! One function for each operation: it reads the arguments, checks the
//! referenced records, runs the operation and writes the records back.

use crate::account::AccountInfo;
use crate::address::Address;
use crate::error::ErrorCode;
use crate::increment_once::{create_outcome, increment_outcome, Create, Increment};
use crate::instruction;
use crate::ledger::Ledger;
use crate::rent::RentExemption;
use vstd::prelude::*;

verus! {

/// Carries out a `create` whose arguments are `ix_data`.
pub fn create(
    program_id: &Address,
    ledger: &mut Ledger,
    accounts: &[AccountInfo],
    ix_data: &[u8],
    rent: &RentExemption,
) -> (r: Result<(), ErrorCode>)
    ensures
        match create_outcome(old(ledger)@, *program_id, accounts@, ix_data@, *rent) {
            Ok(s) => r is Ok && final(ledger)@ == s,
            Err(e) => r == Err::<(), ErrorCode>(e) && final(ledger)@ == old(ledger)@,
        },
{
    let ix = match instruction::Create::deserialize(ix_data) {
        Some(ix) => ix,
        None => {
            return Err(ErrorCode::MalformedInstruction);
        },
    };
    let mut ctx = match Create::try_accounts(program_id, ledger, accounts, ix_data, rent) {
        Ok(ctx) => ctx,
        Err(e) => {
            return Err(e);
        },
    };
    match crate::increment_once::create(&mut ctx, ix.bump) {
        Ok(()) => {},
        Err(e) => {
            return Err(e);
        },
    }
    ctx.exit(program_id, ledger)
}

/// Carries out a guarded `increment` whose arguments are `ix_data`.
pub fn increment(
    program_id: &Address,
    ledger: &mut Ledger,
    accounts: &[AccountInfo],
    ix_data: &[u8],
    rent: &RentExemption,
) -> (r: Result<(), ErrorCode>)
    ensures
        match increment_outcome(old(ledger)@, *program_id, accounts@, ix_data@, *rent) {
            Ok(s) => r is Ok && final(ledger)@ == s,
            Err(e) => r == Err::<(), ErrorCode>(e) && final(ledger)@ == old(ledger)@,
        },
{
    let ix = match instruction::Increment::deserialize(ix_data) {
        Some(ix) => ix,
        None => {
            return Err(ErrorCode::MalformedInstruction);
        },
    };
    let mut ctx = match Increment::try_accounts(program_id, ledger, accounts, ix_data, rent) {
        Ok(ctx) => ctx,
        Err(e) => {
            return Err(e);
        },
    };
    match crate::increment_once::increment(&mut ctx, ix._bump) {
        Ok(()) => {},
        Err(e) => {
            return Err(e);
        },
    }
    ctx.exit(program_id, ledger)
}

} // verus!

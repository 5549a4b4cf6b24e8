//! The unrestricted counter: anyone may increment it, as often as they
//! like.
//!
//! The counter is created as in the guarded program. An increment
//! references the counter alone: nobody signs, and nothing is paid.

pub mod global;

use crate::account::{AccountInfo, AccountMeta, AccountState};
use crate::address::Address;
use crate::error::ErrorCode;
use crate::increment_once::{
    create_outcome, load_counter, load_counter_spec, store_counter, stored_counter,
    CounterAccount,
};
use crate::instruction::{arguments, arguments_spec, route, route_spec, Opcode};
use crate::ledger::Ledger;
use crate::rent::RentExemption;
use crate::state::Counter;
use vstd::prelude::*;

pub use crate::increment_once::{create, Create};

verus! {

/// The records of a checked `increment`: the counter.
#[derive(Clone, Copy, Debug, PartialEq, Eq)]
pub struct Increment {
    pub counter: CounterAccount,
}

impl Increment {
    /// The checked records of an `increment`, or why it is refused. The
    /// checks, in order: a record is referenced; it is owned by the
    /// program, holds a counter, and lives at the address its own nonce
    /// derives; it is writable.
    pub open spec fn validate(
        s: Map<Seq<u8>, AccountState>,
        program_id: Address,
        accounts: Seq<AccountInfo>,
        ix_data: Seq<u8>,
    ) -> Result<Increment, ErrorCode> {
        if accounts.len() < 1 {
            Err(ErrorCode::NotEnoughAccounts)
        } else {
            match load_counter_spec(s, program_id, accounts[0]) {
                Err(e) => Err(e),
                Ok(counter) => if !accounts[0].is_writable {
                    Err(ErrorCode::NotWritable)
                } else {
                    Ok(Increment { counter })
                },
            }
        }
    }

    /// The records after the increment: one more counted. Refused where
    /// the count is the greatest that 64 bits hold.
    pub open spec fn incremented(self) -> Result<Increment, ErrorCode> {
        if self.counter.state.count == u64::MAX {
            Err(ErrorCode::Overflow)
        } else {
            Ok(
                Increment {
                    counter: CounterAccount {
                        info: self.counter.info,
                        state: Counter {
                            count: (self.counter.state.count + 1) as u64,
                            bump: self.counter.state.bump,
                        },
                    },
                },
            )
        }
    }

    /// The ledger once the counter is written to it.
    pub open spec fn commit(self, s: Map<Seq<u8>, AccountState>) -> Map<Seq<u8>, AccountState> {
        stored_counter(s, self.counter)
    }

    /// Checks the referenced records of an `increment` against the ledger.
    pub fn try_accounts(
        program_id: &Address,
        ledger: &Ledger,
        accounts: &[AccountInfo],
        ix_data: &[u8],
    ) -> (r: Result<Increment, ErrorCode>)
        ensures
            r == Self::validate(ledger@, *program_id, accounts@, ix_data@),
    {
        if accounts.len() < 1 {
            return Err(ErrorCode::NotEnoughAccounts);
        }
        let counter = match load_counter(ledger, program_id, &accounts[0]) {
            Ok(counter) => counter,
            Err(e) => {
                return Err(e);
            },
        };
        if !counter.info.is_writable {
            return Err(ErrorCode::NotWritable);
        }
        Ok(Increment { counter })
    }

    /// The referenced records, in the instruction's order.
    pub fn to_account_infos(&self) -> (infos: Vec<AccountInfo>)
        ensures
            infos@ == seq![self.counter.info],
    {
        let mut infos: Vec<AccountInfo> = Vec::new();
        infos.push(self.counter.info);
        assert(infos@ =~= seq![self.counter.info]);
        infos
    }

    /// The referenced records as a client would name them. Each keeps its
    /// own flags, whatever `is_signer` says.
    pub fn to_account_metas(&self, is_signer: Option<bool>) -> (metas: Vec<AccountMeta>)
        ensures
            metas@ == seq![self.counter.info.meta()],
    {
        let mut metas: Vec<AccountMeta> = Vec::new();
        metas.push(self.counter.info.to_account_meta());
        assert(metas@ =~= seq![self.counter.info.meta()]);
        metas
    }

    /// Writes the counter to the ledger.
    pub fn exit(&self, program_id: &Address, ledger: &mut Ledger) -> (r: Result<(), ErrorCode>)
        ensures
            r is Ok,
            final(ledger)@ == self.commit(old(ledger)@),
    {
        store_counter(ledger, &self.counter);
        Ok(())
    }
}

/// Counts one more. Refused with `Overflow`, and nothing changed, where
/// the count is the greatest that 64 bits hold.
pub fn increment(ctx: &mut Increment) -> (r: Result<(), ErrorCode>)
    ensures
        match old(ctx).incremented() {
            Ok(after) => r is Ok && *final(ctx) == after,
            Err(e) => r == Err::<(), ErrorCode>(e) && *final(ctx) == *old(ctx),
        },
{
    if ctx.counter.state.count == u64::MAX {
        return Err(ErrorCode::Overflow);
    }
    ctx.counter.state.count = ctx.counter.state.count + 1;
    Ok(())
}

/// The ledger after an unrestricted `increment`, or why it is refused.
pub open spec fn increment_outcome(
    s: Map<Seq<u8>, AccountState>,
    program_id: Address,
    accounts: Seq<AccountInfo>,
    ix_data: Seq<u8>,
) -> Result<Map<Seq<u8>, AccountState>, ErrorCode> {
    match Increment::validate(s, program_id, accounts, ix_data) {
        Err(e) => Err(e),
        Ok(ctx) => match ctx.incremented() {
            Err(e) => Err(e),
            Ok(after) => Ok(after.commit(s)),
        },
    }
}

/// The ledger after the instruction with the given payload, or why it is
/// refused.
pub open spec fn entry_outcome(
    s: Map<Seq<u8>, AccountState>,
    program_id: Address,
    accounts: Seq<AccountInfo>,
    data: Seq<u8>,
    rent: RentExemption,
) -> Result<Map<Seq<u8>, AccountState>, ErrorCode> {
    match route_spec(data) {
        Err(e) => Err(e),
        Ok(Opcode::Introspection) => Err(ErrorCode::IntrospectionNotHandled),
        Ok(Opcode::Create) => create_outcome(s, program_id, accounts, arguments_spec(data), rent),
        Ok(Opcode::Increment) => increment_outcome(s, program_id, accounts, arguments_spec(data)),
    }
}

/// Hands the instruction to the operation that its opcode names. `rent`
/// holds the balances that the host asks of a new record.
pub fn dispatch(
    program_id: &Address,
    ledger: &mut Ledger,
    accounts: &[AccountInfo],
    data: &[u8],
    rent: &RentExemption,
) -> (r: Result<(), ErrorCode>)
    requires
        data@.len() >= 8,
    ensures
        match entry_outcome(old(ledger)@, *program_id, accounts@, data@, *rent) {
            Ok(s) => r is Ok && final(ledger)@ == s,
            Err(e) => r == Err::<(), ErrorCode>(e) && final(ledger)@ == old(ledger)@,
        },
{
    let ix_data = arguments(data);
    match route(data) {
        Err(e) => Err(e),
        Ok(Opcode::Introspection) => Err(ErrorCode::IntrospectionNotHandled),
        Ok(Opcode::Create) => global::create(program_id, ledger, accounts, ix_data, rent),
        Ok(Opcode::Increment) => global::increment(program_id, ledger, accounts, ix_data),
    }
}

/// Carries out one instruction on the ledger, or refuses it and leaves
/// the ledger as it was. `rent` holds the balances that the host asks of a
/// new record.
pub fn entry(
    program_id: &Address,
    ledger: &mut Ledger,
    accounts: &[AccountInfo],
    data: &[u8],
    rent: &RentExemption,
) -> (r: Result<(), ErrorCode>)
    ensures
        match entry_outcome(old(ledger)@, *program_id, accounts@, data@, *rent) {
            Ok(s) => r is Ok && final(ledger)@ == s,
            Err(e) => r == Err::<(), ErrorCode>(e) && final(ledger)@ == old(ledger)@,
        },
{
    if data.len() < 8 {
        return Err(ErrorCode::MalformedInstruction);
    }
    dispatch(program_id, ledger, accounts, data, rent)
}

} // verus!

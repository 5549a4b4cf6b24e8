//! The guarded counter: each identity may increment it once.
//!
//! An increment creates a guard record at the address derived from the
//! requester's identity. Where that record lives already the creation is
//! refused, and the increment with it: the refusal is what detects the
//! second attempt, so no flag is ever read.
//!
//! Every instruction is checked in full against the ledger as it stands
//! before anything is written, so a refused instruction changes nothing.

pub mod global;

use crate::account::{system_program, system_program_id, AccountInfo, AccountMeta, AccountState};
use crate::address::{derived, is_canonical_address, verify_canonical, Address};
use crate::error::ErrorCode;
use crate::instruction;
use crate::instruction::{arguments, arguments_spec, route, route_spec, Opcode};
use crate::ledger::{account_at, Ledger};
use crate::program::id_spec;
use crate::record::{commit_creation, created, plan_creation, plan_spec, Funding};
use crate::rent::RentExemption;
use crate::state::{Counter, HasIncremented};
use vstd::prelude::*;

verus! {

/// The counter record as an instruction holds it.
#[derive(Clone, Copy, Debug, PartialEq, Eq)]
pub struct CounterAccount {
    pub info: AccountInfo,
    pub state: Counter,
}

/// A guard record as an instruction holds it.
#[derive(Clone, Copy, Debug, PartialEq, Eq)]
pub struct GuardAccount {
    pub info: AccountInfo,
    pub state: HasIncremented,
}

/// The records of a checked `create`: the counter to be created, the
/// requester who signs and pays, and the resource-allocation service.
#[derive(Clone, Copy, Debug, PartialEq, Eq)]
pub struct Create {
    pub counter: CounterAccount,
    pub user: AccountInfo,
    pub system_program: AccountInfo,
    /// What creating the counter leaves the requester and the counter.
    pub funding: Funding,
}

/// The records of a checked `increment`: the counter, the requester's
/// guard to be created, the requester who signs and pays, and the
/// resource-allocation service.
#[derive(Clone, Copy, Debug, PartialEq, Eq)]
pub struct Increment {
    pub counter: CounterAccount,
    pub has_incremented: GuardAccount,
    pub user: AccountInfo,
    pub system_program: AccountInfo,
    /// What creating the guard leaves the requester and the guard.
    pub funding: Funding,
}

/// The counter read from the ledger at the referenced address. It must be
/// owned by the program, hold a counter, and live at the address that its
/// own nonce derives.
pub open spec fn load_counter_spec(
    s: Map<Seq<u8>, AccountState>,
    program_id: Address,
    info: AccountInfo,
) -> Result<CounterAccount, ErrorCode> {
    let account = account_at(s, info.key@);
    if account.owner != id_spec() {
        Err(ErrorCode::WrongOwner)
    } else {
        match Counter::decode(account.data) {
            Err(e) => Err(e),
            Ok(state) => if derived(Counter::seeds(), state.bump, program_id@) != Some(
                info.key@,
            ) {
                Err(ErrorCode::InvalidDerivation)
            } else {
                Ok(CounterAccount { info, state })
            },
        }
    }
}

/// The ledger with the counter's data replaced by what the instruction
/// holds.
pub open spec fn stored_counter(
    s: Map<Seq<u8>, AccountState>,
    counter: CounterAccount,
) -> Map<Seq<u8>, AccountState> {
    let account = account_at(s, counter.info.key@);
    s.insert(
        counter.info.key@,
        AccountState {
            lamports: account.lamports,
            owner: account.owner,
            data: counter.state.encoding(),
        },
    )
}

/// Reads the counter from the ledger at the referenced address.
pub fn load_counter(ledger: &Ledger, program_id: &Address, info: &AccountInfo) -> (r: Result<
    CounterAccount,
    ErrorCode,
>)
    ensures
        r == load_counter_spec(ledger@, *program_id, *info),
{
    let account = ledger.account(&info.key);
    if account.owner != Counter::owner() {
        return Err(ErrorCode::WrongOwner);
    }
    let state = match Counter::try_deserialize(account.data.as_slice()) {
        Ok(state) => state,
        Err(e) => {
            return Err(e);
        },
    };
    let seeds = Counter::seed_list();
    if !crate::address::verify(&info.key, &seeds, state.bump, program_id) {
        return Err(ErrorCode::InvalidDerivation);
    }
    Ok(CounterAccount { info: *info, state })
}

/// Writes the counter that the instruction holds to the ledger.
pub fn store_counter(ledger: &mut Ledger, counter: &CounterAccount)
    ensures
        final(ledger)@ == stored_counter(old(ledger)@, *counter),
{
    let mut account = ledger.account(&counter.info.key);
    let mut data: Vec<u8> = Vec::new();
    let _ = counter.state.try_serialize(&mut data);
    assert(data@ =~= counter.state.encoding());
    account.data = data;
    ledger.set_account(counter.info.key, account);
}

impl Create {
    /// Whether a `create` passes every check that comes before the counter
    /// is planned: its arguments, or why it is refused. A record is asked
    /// for only where a check first needs it. The checks, in order: the
    /// arguments hold a nonce; the counter is referenced; the nonce is the
    /// canonical one of the counter's seeds and derives the referenced
    /// address; the requester is referenced; it signed; the
    /// resource-allocation service is referenced; it is that service; the
    /// counter is writable.
    pub open spec fn admitted(
        program_id: Address,
        accounts: Seq<AccountInfo>,
        ix_data: Seq<u8>,
    ) -> Result<instruction::Create, ErrorCode> {
        match instruction::Create::decode(ix_data) {
            None => Err(ErrorCode::MalformedInstruction),
            Some(args) => if accounts.len() < 1 {
                Err(ErrorCode::NotEnoughAccounts)
            } else if !is_canonical_address(
                Counter::seeds(),
                args.bump,
                program_id@,
                accounts[0].key@,
            ) {
                Err(ErrorCode::InvalidDerivation)
            } else if accounts.len() < 2 {
                Err(ErrorCode::NotEnoughAccounts)
            } else if !accounts[1].is_signer {
                Err(ErrorCode::NotASigner)
            } else if accounts.len() < 3 {
                Err(ErrorCode::NotEnoughAccounts)
            } else if accounts[2].key@ != system_program_id() {
                Err(ErrorCode::InvalidProgramId)
            } else if !accounts[0].is_writable {
                Err(ErrorCode::NotWritable)
            } else {
                Ok(args)
            },
        }
    }

    /// The checked records of a `create`, or why it is refused: it must be
    /// admitted, no record may live at the counter's address, and the
    /// requester must be able to fund the counter with the balance that the
    /// host asks for it.
    pub open spec fn validate(
        s: Map<Seq<u8>, AccountState>,
        program_id: Address,
        accounts: Seq<AccountInfo>,
        ix_data: Seq<u8>,
        rent: RentExemption,
    ) -> Result<Create, ErrorCode> {
        match Self::admitted(program_id, accounts, ix_data) {
            Err(e) => Err(e),
            Ok(_) => match plan_spec(s, accounts[0].key@, accounts[1].key@, rent.counter) {
                Err(e) => Err(e),
                Ok(funding) => Ok(
                    Create {
                        counter: CounterAccount {
                            info: accounts[0],
                            state: Counter { count: 0, bump: 0 },
                        },
                        user: accounts[1],
                        system_program: accounts[2],
                        funding,
                    },
                ),
            },
        }
    }

    /// The records with the counter initialized: nothing counted yet, and
    /// the nonce kept.
    pub open spec fn initialized(self, bump: u8) -> Create {
        Create {
            counter: CounterAccount { info: self.counter.info, state: Counter { count: 0, bump } },
            user: self.user,
            system_program: self.system_program,
            funding: self.funding,
        }
    }

    /// The ledger once the instruction's records are written to it: the
    /// counter is created, and the requester has paid for it.
    pub open spec fn commit(self, s: Map<Seq<u8>, AccountState>, program_id: Address) -> Map<
        Seq<u8>,
        AccountState,
    > {
        created(
            s,
            self.counter.info.key@,
            self.user.key@,
            program_id@,
            self.funding,
            self.counter.state.encoding(),
        )
    }

    /// Checks the referenced records of a `create` against the ledger.
    pub fn try_accounts(
        program_id: &Address,
        ledger: &Ledger,
        accounts: &[AccountInfo],
        ix_data: &[u8],
        rent: &RentExemption,
    ) -> (r: Result<Create, ErrorCode>)
        ensures
            r == Self::validate(ledger@, *program_id, accounts@, ix_data@, *rent),
            r matches Ok(ctx) ==> ctx.funding.record_lamports >= rent.counter,
    {
        let args = match instruction::Create::deserialize(ix_data) {
            Some(args) => args,
            None => {
                return Err(ErrorCode::MalformedInstruction);
            },
        };
        if accounts.len() < 1 {
            return Err(ErrorCode::NotEnoughAccounts);
        }
        let counter = accounts[0];
        let seeds = Counter::seed_list();
        if !verify_canonical(&counter.key, &seeds, args.bump, program_id) {
            return Err(ErrorCode::InvalidDerivation);
        }
        if accounts.len() < 2 {
            return Err(ErrorCode::NotEnoughAccounts);
        }
        let user = accounts[1];
        if !user.is_signer {
            return Err(ErrorCode::NotASigner);
        }
        if accounts.len() < 3 {
            return Err(ErrorCode::NotEnoughAccounts);
        }
        let system = accounts[2];
        if system.key != system_program() {
            return Err(ErrorCode::InvalidProgramId);
        }
        if !counter.is_writable {
            return Err(ErrorCode::NotWritable);
        }
        let funding = match plan_creation(ledger, &counter.key, &user.key, rent.counter) {
            Ok(funding) => funding,
            Err(e) => {
                return Err(e);
            },
        };
        Ok(
            Create {
                counter: CounterAccount { info: counter, state: Counter::default() },
                user,
                system_program: system,
                funding,
            },
        )
    }

    /// The referenced records, in the instruction's order.
    pub fn to_account_infos(&self) -> (infos: Vec<AccountInfo>)
        ensures
            infos@ == seq![self.counter.info, self.user, self.system_program],
    {
        let mut infos: Vec<AccountInfo> = Vec::new();
        infos.push(self.counter.info);
        infos.push(self.user);
        infos.push(self.system_program);
        assert(infos@ =~= seq![self.counter.info, self.user, self.system_program]);
        infos
    }

    /// The referenced records as a client would name them. Each keeps its
    /// own flags, whatever `is_signer` says.
    pub fn to_account_metas(&self, is_signer: Option<bool>) -> (metas: Vec<AccountMeta>)
        ensures
            metas@ == seq![
                self.counter.info.meta(),
                self.user.meta(),
                self.system_program.meta(),
            ],
    {
        let mut metas: Vec<AccountMeta> = Vec::new();
        metas.push(self.counter.info.to_account_meta());
        metas.push(self.user.to_account_meta());
        metas.push(self.system_program.to_account_meta());
        assert(metas@ =~= seq![
            self.counter.info.meta(),
            self.user.meta(),
            self.system_program.meta(),
        ]);
        metas
    }

    /// Writes the instruction's records to the ledger.
    pub fn exit(&self, program_id: &Address, ledger: &mut Ledger) -> (r: Result<(), ErrorCode>)
        ensures
            r is Ok,
            final(ledger)@ == self.commit(old(ledger)@, *program_id),
    {
        let mut data: Vec<u8> = Vec::new();
        let _ = self.counter.state.try_serialize(&mut data);
        assert(data@ =~= self.counter.state.encoding());
        commit_creation(
            ledger,
            self.counter.info.key,
            &self.user.key,
            *program_id,
            self.funding,
            data,
        );
        Ok(())
    }
}

impl Increment {
    /// Whether an `increment` passes every check that comes before the
    /// guard is planned: the counter it found, or why it is refused. A
    /// record is asked for only where a check first needs it. The checks, in
    /// order: the arguments hold a nonce; counter, guard and requester are
    /// referenced; the nonce is the canonical one of the requester's guard
    /// and derives the referenced guard address; the counter is owned by
    /// the program, holds a counter, and lives at the address its own nonce
    /// derives; the requester signed; the resource-allocation service is
    /// referenced; it is that service; guard, counter and requester are
    /// writable.
    pub open spec fn admitted(
        s: Map<Seq<u8>, AccountState>,
        program_id: Address,
        accounts: Seq<AccountInfo>,
        ix_data: Seq<u8>,
    ) -> Result<CounterAccount, ErrorCode> {
        match instruction::Increment::decode(ix_data) {
            None => Err(ErrorCode::MalformedInstruction),
            Some(args) => if accounts.len() < 3 {
                Err(ErrorCode::NotEnoughAccounts)
            } else if !is_canonical_address(
                HasIncremented::seeds(accounts[2].key),
                args._bump,
                program_id@,
                accounts[1].key@,
            ) {
                Err(ErrorCode::InvalidDerivation)
            } else {
                match load_counter_spec(s, program_id, accounts[0]) {
                    Err(e) => Err(e),
                    Ok(counter) => if !accounts[2].is_signer {
                        Err(ErrorCode::NotASigner)
                    } else if accounts.len() < 4 {
                        Err(ErrorCode::NotEnoughAccounts)
                    } else if accounts[3].key@ != system_program_id() {
                        Err(ErrorCode::InvalidProgramId)
                    } else if !accounts[1].is_writable || !accounts[0].is_writable
                        || !accounts[2].is_writable {
                        Err(ErrorCode::NotWritable)
                    } else {
                        Ok(counter)
                    },
                }
            },
        }
    }

    /// The checked records of an `increment`, or why it is refused: it must
    /// be admitted, no record may live at the guard's address, and the
    /// requester must be able to fund the guard with the balance that the
    /// host asks for it.
    pub open spec fn validate(
        s: Map<Seq<u8>, AccountState>,
        program_id: Address,
        accounts: Seq<AccountInfo>,
        ix_data: Seq<u8>,
        rent: RentExemption,
    ) -> Result<Increment, ErrorCode> {
        match Self::admitted(s, program_id, accounts, ix_data) {
            Err(e) => Err(e),
            Ok(counter) => match plan_spec(
                s,
                accounts[1].key@,
                accounts[2].key@,
                rent.has_incremented,
            ) {
                Err(e) => Err(e),
                Ok(funding) => Ok(
                    Increment {
                        counter,
                        has_incremented: GuardAccount {
                            info: accounts[1],
                            state: HasIncremented { has_incremented: false },
                        },
                        user: accounts[2],
                        system_program: accounts[3],
                        funding,
                    },
                ),
            },
        }
    }

    /// The records after the increment: one more counted, and the guard
    /// marked. Refused where the count is the greatest that 64 bits hold.
    pub open spec fn incremented(self) -> Result<Increment, ErrorCode> {
        if self.counter.state.count == u64::MAX {
            Err(ErrorCode::Overflow)
        } else {
            Ok(
                Increment {
                    counter: CounterAccount {
                        info: self.counter.info,
                        state: Counter {
                            count: (self.counter.state.count + 1) as u64,
                            bump: self.counter.state.bump,
                        },
                    },
                    has_incremented: GuardAccount {
                        info: self.has_incremented.info,
                        state: HasIncremented { has_incremented: true },
                    },
                    user: self.user,
                    system_program: self.system_program,
                    funding: self.funding,
                },
            )
        }
    }

    /// The ledger once the instruction's records are written to it: the
    /// guard is created, the requester has paid for it, and the counter
    /// holds the new count.
    pub open spec fn commit(self, s: Map<Seq<u8>, AccountState>, program_id: Address) -> Map<
        Seq<u8>,
        AccountState,
    > {
        stored_counter(
            created(
                s,
                self.has_incremented.info.key@,
                self.user.key@,
                program_id@,
                self.funding,
                self.has_incremented.state.encoding(),
            ),
            self.counter,
        )
    }

    /// Checks the referenced records of an `increment` against the ledger.
    pub fn try_accounts(
        program_id: &Address,
        ledger: &Ledger,
        accounts: &[AccountInfo],
        ix_data: &[u8],
        rent: &RentExemption,
    ) -> (r: Result<Increment, ErrorCode>)
        ensures
            r == Self::validate(ledger@, *program_id, accounts@, ix_data@, *rent),
            r matches Ok(ctx) ==> ctx.funding.record_lamports >= rent.has_incremented,
    {
        let args = match instruction::Increment::deserialize(ix_data) {
            Some(args) => args,
            None => {
                return Err(ErrorCode::MalformedInstruction);
            },
        };
        if accounts.len() < 3 {
            return Err(ErrorCode::NotEnoughAccounts);
        }
        let guard = accounts[1];
        let user = accounts[2];
        let seeds = HasIncremented::seed_list(&user.key);
        if !verify_canonical(&guard.key, &seeds, args._bump, program_id) {
            return Err(ErrorCode::InvalidDerivation);
        }
        let counter = match load_counter(ledger, program_id, &accounts[0]) {
            Ok(counter) => counter,
            Err(e) => {
                return Err(e);
            },
        };
        if !user.is_signer {
            return Err(ErrorCode::NotASigner);
        }
        if accounts.len() < 4 {
            return Err(ErrorCode::NotEnoughAccounts);
        }
        let system = accounts[3];
        if system.key != system_program() {
            return Err(ErrorCode::InvalidProgramId);
        }
        if !guard.is_writable || !counter.info.is_writable || !user.is_writable {
            return Err(ErrorCode::NotWritable);
        }
        let funding = match plan_creation(ledger, &guard.key, &user.key, rent.has_incremented) {
            Ok(funding) => funding,
            Err(e) => {
                return Err(e);
            },
        };
        Ok(
            Increment {
                counter,
                has_incremented: GuardAccount { info: guard, state: HasIncremented::default() },
                user,
                system_program: system,
                funding,
            },
        )
    }

    /// The referenced records, in the instruction's order.
    pub fn to_account_infos(&self) -> (infos: Vec<AccountInfo>)
        ensures
            infos@ == seq![
                self.counter.info,
                self.has_incremented.info,
                self.user,
                self.system_program,
            ],
    {
        let mut infos: Vec<AccountInfo> = Vec::new();
        infos.push(self.counter.info);
        infos.push(self.has_incremented.info);
        infos.push(self.user);
        infos.push(self.system_program);
        assert(infos@ =~= seq![
            self.counter.info,
            self.has_incremented.info,
            self.user,
            self.system_program,
        ]);
        infos
    }

    /// The referenced records as a client would name them. Each keeps its
    /// own flags, whatever `is_signer` says.
    pub fn to_account_metas(&self, is_signer: Option<bool>) -> (metas: Vec<AccountMeta>)
        ensures
            metas@ == seq![
                self.counter.info.meta(),
                self.has_incremented.info.meta(),
                self.user.meta(),
                self.system_program.meta(),
            ],
    {
        let mut metas: Vec<AccountMeta> = Vec::new();
        metas.push(self.counter.info.to_account_meta());
        metas.push(self.has_incremented.info.to_account_meta());
        metas.push(self.user.to_account_meta());
        metas.push(self.system_program.to_account_meta());
        assert(metas@ =~= seq![
            self.counter.info.meta(),
            self.has_incremented.info.meta(),
            self.user.meta(),
            self.system_program.meta(),
        ]);
        metas
    }

    /// Writes the instruction's records to the ledger.
    pub fn exit(&self, program_id: &Address, ledger: &mut Ledger) -> (r: Result<(), ErrorCode>)
        ensures
            r is Ok,
            final(ledger)@ == self.commit(old(ledger)@, *program_id),
    {
        let mut data: Vec<u8> = Vec::new();
        let _ = self.has_incremented.state.try_serialize(&mut data);
        assert(data@ =~= self.has_incremented.state.encoding());
        commit_creation(
            ledger,
            self.has_incremented.info.key,
            &self.user.key,
            *program_id,
            self.funding,
            data,
        );
        store_counter(ledger, &self.counter);
        Ok(())
    }
}

/// Initializes the counter: nothing counted yet, and the nonce kept.
pub fn create(ctx: &mut Create, bump: u8) -> (r: Result<(), ErrorCode>)
    ensures
        r is Ok,
        *final(ctx) == old(ctx).initialized(bump),
{
    ctx.counter.state.count = 0;
    ctx.counter.state.bump = bump;
    Ok(())
}

/// Counts one more and marks the guard. Refused with `Overflow`, and
/// nothing changed, where the count is the greatest that 64 bits hold.
pub fn increment(ctx: &mut Increment, _bump: u8) -> (r: Result<(), ErrorCode>)
    ensures
        match old(ctx).incremented() {
            Ok(after) => r is Ok && *final(ctx) == after,
            Err(e) => r == Err::<(), ErrorCode>(e) && *final(ctx) == *old(ctx),
        },
{
    if ctx.counter.state.count == u64::MAX {
        return Err(ErrorCode::Overflow);
    }
    ctx.counter.state.count = ctx.counter.state.count + 1;
    ctx.has_incremented.state.has_incremented = true;
    Ok(())
}

/// The ledger after a `create` with the given arguments, or why it is
/// refused.
pub open spec fn create_outcome(
    s: Map<Seq<u8>, AccountState>,
    program_id: Address,
    accounts: Seq<AccountInfo>,
    ix_data: Seq<u8>,
    rent: RentExemption,
) -> Result<Map<Seq<u8>, AccountState>, ErrorCode> {
    match Create::validate(s, program_id, accounts, ix_data, rent) {
        Err(e) => Err(e),
        Ok(ctx) => Ok(ctx.initialized(ix_data[0]).commit(s, program_id)),
    }
}

/// The ledger after a guarded `increment` with the given arguments, or why
/// it is refused.
pub open spec fn increment_outcome(
    s: Map<Seq<u8>, AccountState>,
    program_id: Address,
    accounts: Seq<AccountInfo>,
    ix_data: Seq<u8>,
    rent: RentExemption,
) -> Result<Map<Seq<u8>, AccountState>, ErrorCode> {
    match Increment::validate(s, program_id, accounts, ix_data, rent) {
        Err(e) => Err(e),
        Ok(ctx) => match ctx.incremented() {
            Err(e) => Err(e),
            Ok(after) => Ok(after.commit(s, program_id)),
        },
    }
}

/// The ledger after the instruction with the given payload, or why it is
/// refused.
pub open spec fn entry_outcome(
    s: Map<Seq<u8>, AccountState>,
    program_id: Address,
    accounts: Seq<AccountInfo>,
    data: Seq<u8>,
    rent: RentExemption,
) -> Result<Map<Seq<u8>, AccountState>, ErrorCode> {
    match route_spec(data) {
        Err(e) => Err(e),
        Ok(Opcode::Introspection) => Err(ErrorCode::IntrospectionNotHandled),
        Ok(Opcode::Create) => create_outcome(s, program_id, accounts, arguments_spec(data), rent),
        Ok(Opcode::Increment) => increment_outcome(
            s,
            program_id,
            accounts,
            arguments_spec(data),
            rent,
        ),
    }
}

/// Hands the instruction to the operation that its opcode names. `rent`
/// holds the balances that the host asks of a new record.
pub fn dispatch(
    program_id: &Address,
    ledger: &mut Ledger,
    accounts: &[AccountInfo],
    data: &[u8],
    rent: &RentExemption,
) -> (r: Result<(), ErrorCode>)
    requires
        data@.len() >= 8,
    ensures
        match entry_outcome(old(ledger)@, *program_id, accounts@, data@, *rent) {
            Ok(s) => r is Ok && final(ledger)@ == s,
            Err(e) => r == Err::<(), ErrorCode>(e) && final(ledger)@ == old(ledger)@,
        },
{
    let ix_data = arguments(data);
    match route(data) {
        Err(e) => Err(e),
        Ok(Opcode::Introspection) => Err(ErrorCode::IntrospectionNotHandled),
        Ok(Opcode::Create) => global::create(program_id, ledger, accounts, ix_data, rent),
        Ok(Opcode::Increment) => global::increment(program_id, ledger, accounts, ix_data, rent),
    }
}

/// Carries out one instruction on the ledger, or refuses it and leaves
/// the ledger as it was. `rent` holds the balances that the host asks of a
/// new record.
pub fn entry(
    program_id: &Address,
    ledger: &mut Ledger,
    accounts: &[AccountInfo],
    data: &[u8],
    rent: &RentExemption,
) -> (r: Result<(), ErrorCode>)
    ensures
        match entry_outcome(old(ledger)@, *program_id, accounts@, data@, *rent) {
            Ok(s) => r is Ok && final(ledger)@ == s,
            Err(e) => r == Err::<(), ErrorCode>(e) && final(ledger)@ == old(ledger)@,
        },
{
    if data.len() < 8 {
        return Err(ErrorCode::MalformedInstruction);
    }
    dispatch(program_id, ledger, accounts, data, rent)
}

} // verus!

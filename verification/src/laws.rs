//! What holds of the two programs on every ledger.
//!
//! The laws speak of the outcome of an instruction as the programs'
//! contracts define it: the ledger after the instruction, or the reason for
//! which it was refused, in which case the ledger stays as it was.

use crate::account::{system_program_id, AccountInfo, AccountState};
use crate::address::{derived, is_canonical_address, Address};
use crate::error::ErrorCode;
use crate::increment;
use crate::increment_once;
use crate::address::same_bytes_same_address;
use crate::increment_once::{create_outcome, load_counter_spec, CounterAccount};
use crate::instruction::{arguments_spec, route_spec, Opcode};
use crate::ledger::{account_at, record_exists};
use crate::program::id_spec;
use crate::record::planned_record_is_funded;
use crate::rent::RentExemption;
use crate::state::{counter_roundtrip, guard_roundtrip, Counter, HasIncremented};
use vstd::prelude::*;

verus! {

/// The ledger after an instruction with the given outcome: the new ledger
/// where it was carried out, the old one where it was refused.
pub open spec fn settled(
    s: Map<Seq<u8>, AccountState>,
    outcome: Result<Map<Seq<u8>, AccountState>, ErrorCode>,
) -> Map<Seq<u8>, AccountState> {
    match outcome {
        Ok(after) => after,
        Err(_) => s,
    }
}

/// The count that the record at the address holds, if it holds a counter.
pub open spec fn counter_value(s: Map<Seq<u8>, AccountState>, key: Seq<u8>) -> Option<u64> {
    match Counter::decode(account_at(s, key).data) {
        Ok(counter) => Some(counter.count),
        Err(_) => None,
    }
}

/// Whether the identity has incremented: whether a record lives at the
/// canonical address of its guard.
pub open spec fn claimed(s: Map<Seq<u8>, AccountState>, program_id: Address, user: Address) -> bool {
    exists|nonce: u8, guard: Seq<u8>|
        #![trigger is_canonical_address(HasIncremented::seeds(user), nonce, program_id@, guard)]
        is_canonical_address(HasIncremented::seeds(user), nonce, program_id@, guard)
            && record_exists(s, guard)
}

/// The program's address is not that of the resource-allocation service,
/// so what the program owns is a record.
pub proof fn program_is_not_the_service()
    ensures
        id_spec() != system_program_id(),
{
    assert(id_spec()[0] != system_program_id()[0]);
}

/// Derivation integrity. A `create` that holds a nonce and references the
/// counter, and a guarded `increment` that holds a nonce and references
/// counter, guard and requester, are refused with `InvalidDerivation` where
/// the nonce does not derive the referenced address from the seeds of the
/// counter, or of the requester's guard: whatever the ledger holds, whoever
/// signed, and whatever else the instruction references. So is an increment
/// of either program whose counter record does not live at the address that
/// its own stored nonce derives, once the checks before that one have
/// passed.
pub proof fn wrong_nonce_is_refused(
    s: Map<Seq<u8>, AccountState>,
    program_id: Address,
    accounts: Seq<AccountInfo>,
    ix_data: Seq<u8>,
    rent: RentExemption,
)
    ensures
        ix_data.len() >= 1 && accounts.len() >= 1 && derived(
            Counter::seeds(),
            ix_data[0],
            program_id@,
        ) != Some(accounts[0].key@) ==> create_outcome(s, program_id, accounts, ix_data, rent)
            == Err::<Map<Seq<u8>, AccountState>, ErrorCode>(ErrorCode::InvalidDerivation),
        ix_data.len() >= 1 && accounts.len() >= 3 && derived(
            HasIncremented::seeds(accounts[2].key),
            ix_data[0],
            program_id@,
        ) != Some(accounts[1].key@) ==> increment_once::increment_outcome(
            s,
            program_id,
            accounts,
            ix_data,
            rent,
        ) == Err::<Map<Seq<u8>, AccountState>, ErrorCode>(ErrorCode::InvalidDerivation),
        accounts.len() >= 1 && account_at(s, accounts[0].key@).owner == id_spec() && (
        Counter::decode(account_at(s, accounts[0].key@).data) matches Ok(counter) && derived(
            Counter::seeds(),
            counter.bump,
            program_id@,
        ) != Some(accounts[0].key@)) ==> {
            &&& increment::increment_outcome(s, program_id, accounts, ix_data) == Err::<
                Map<Seq<u8>, AccountState>,
                ErrorCode,
            >(ErrorCode::InvalidDerivation)
            &&& increment_once::increment_outcome(s, program_id, accounts, ix_data, rent) is Err
            &&& ix_data.len() >= 1 && accounts.len() >= 3 && is_canonical_address(
                HasIncremented::seeds(accounts[2].key),
                ix_data[0],
                program_id@,
                accounts[1].key@,
            ) ==> increment_once::increment_outcome(s, program_id, accounts, ix_data, rent)
                == Err::<Map<Seq<u8>, AccountState>, ErrorCode>(ErrorCode::InvalidDerivation)
        },
{
}

/// The order of the refusals. A requester who did not sign is told so
/// before a record that the checks have not yet needed is missed: a
/// `create` with a rightly derived counter and a guarded `increment` with a
/// rightly derived guard and a counter of the program are refused with
/// `NotASigner` where the requester did not sign, whether or not the
/// resource-allocation service is referenced.
pub proof fn unsigned_requester_is_refused(
    s: Map<Seq<u8>, AccountState>,
    program_id: Address,
    accounts: Seq<AccountInfo>,
    ix_data: Seq<u8>,
    rent: RentExemption,
)
    ensures
        ix_data.len() >= 1 && accounts.len() >= 2 && !accounts[1].is_signer
            && is_canonical_address(Counter::seeds(), ix_data[0], program_id@, accounts[0].key@)
            ==> create_outcome(s, program_id, accounts, ix_data, rent) == Err::<
            Map<Seq<u8>, AccountState>,
            ErrorCode,
        >(ErrorCode::NotASigner),
        ix_data.len() >= 1 && accounts.len() >= 3 && !accounts[2].is_signer
            && is_canonical_address(
            HasIncremented::seeds(accounts[2].key),
            ix_data[0],
            program_id@,
            accounts[1].key@,
        ) && load_counter_spec(s, program_id, accounts[0]) is Ok
            ==> increment_once::increment_outcome(s, program_id, accounts, ix_data, rent) == Err::<
            Map<Seq<u8>, AccountState>,
            ErrorCode,
        >(ErrorCode::NotASigner),
{
}

/// Creation precondition. Where no record lives at the referenced counter
/// address, an increment of either program is refused. The unrestricted
/// one is refused with `WrongOwner` once it references a record at all; the
/// guarded one with `WrongOwner` once it holds a nonce, references counter,
/// guard and requester, and names the requester's guard rightly.
pub proof fn increment_needs_counter(
    s: Map<Seq<u8>, AccountState>,
    program_id: Address,
    accounts: Seq<AccountInfo>,
    ix_data: Seq<u8>,
    rent: RentExemption,
)
    requires
        accounts.len() >= 1 ==> !record_exists(s, accounts[0].key@),
    ensures
        increment::increment_outcome(s, program_id, accounts, ix_data) is Err,
        accounts.len() >= 1 ==> increment::increment_outcome(s, program_id, accounts, ix_data)
            == Err::<Map<Seq<u8>, AccountState>, ErrorCode>(ErrorCode::WrongOwner),
        increment_once::increment_outcome(s, program_id, accounts, ix_data, rent) is Err,
        ix_data.len() >= 1 && accounts.len() >= 3 && is_canonical_address(
            HasIncremented::seeds(accounts[2].key),
            ix_data[0],
            program_id@,
            accounts[1].key@,
        ) ==> increment_once::increment_outcome(s, program_id, accounts, ix_data, rent) == Err::<
            Map<Seq<u8>, AccountState>,
            ErrorCode,
        >(ErrorCode::WrongOwner),
{
    program_is_not_the_service();
}

/// A counter that `create` made can be incremented, and is funded: the
/// record that it leaves is owned by the program, holds a count of zero and
/// the nonce, lives at the address that the nonce derives, and holds at
/// least the balance that the host asks of a counter.
pub proof fn created_counter_loads(
    s: Map<Seq<u8>, AccountState>,
    program_id: Address,
    accounts: Seq<AccountInfo>,
    ix_data: Seq<u8>,
    rent: RentExemption,
)
    requires
        create_outcome(s, program_id, accounts, ix_data, rent) is Ok,
    ensures
        ({
            let after = create_outcome(s, program_id, accounts, ix_data, rent)->Ok_0;
            &&& program_id@ == id_spec() ==> load_counter_spec(after, program_id, accounts[0])
                == Ok::<CounterAccount, ErrorCode>(
                CounterAccount {
                    info: accounts[0],
                    state: Counter { count: 0, bump: ix_data[0] },
                },
            )
            &&& counter_value(after, accounts[0].key@) == Some(0u64)
            &&& account_at(after, accounts[0].key@).owner == program_id@
            &&& account_at(after, accounts[0].key@).lamports >= rent.counter
            &&& !record_exists(s, accounts[0].key@)
        }),
{
    counter_roundtrip(Counter { count: 0, bump: ix_data[0] });
    planned_record_is_funded(s, accounts[0].key@, accounts[1].key@, rent.counter);
}

/// Single claim without a guard. Where the referenced record is a counter
/// of the program and writable, and its count is not the greatest that 64
/// bits hold, the unrestricted increment is carried out, whoever asks and
/// however often they have asked before. It adds one to the count, leaves
/// the counter a counter of the program, and changes nothing else.
pub proof fn unrestricted_increment_counts(
    s: Map<Seq<u8>, AccountState>,
    program_id: Address,
    accounts: Seq<AccountInfo>,
    ix_data: Seq<u8>,
)
    requires
        accounts.len() >= 1,
        accounts[0].is_writable,
        load_counter_spec(s, program_id, accounts[0]) is Ok,
        load_counter_spec(s, program_id, accounts[0])->Ok_0.state.count < u64::MAX,
    ensures
        increment::increment_outcome(s, program_id, accounts, ix_data) is Ok,
        ({
            let before = load_counter_spec(s, program_id, accounts[0])->Ok_0;
            let after = increment::increment_outcome(s, program_id, accounts, ix_data)->Ok_0;
            &&& load_counter_spec(after, program_id, accounts[0]) == Ok::<
                CounterAccount,
                ErrorCode,
            >(
                CounterAccount {
                    info: accounts[0],
                    state: Counter {
                        count: (before.state.count + 1) as u64,
                        bump: before.state.bump,
                    },
                },
            )
            &&& counter_value(after, accounts[0].key@) == Some((before.state.count + 1) as u64)
            &&& forall|key: Seq<u8>|
                key != accounts[0].key@ ==> account_at(after, key) == account_at(s, key)
        }),
{
    let before = load_counter_spec(s, program_id, accounts[0])->Ok_0;
    counter_roundtrip(
        Counter { count: (before.state.count + 1) as u64, bump: before.state.bump },
    );
}

/// What a guarded increment that is carried out does: it adds one to the
/// count and leaves the counter a counter of the program; it creates the
/// requester's guard at the canonical address, where no record lived, with
/// at least the balance that the host asks of a guard; it removes no
/// record; and it leaves every address but those of the counter, the guard
/// and the requester as it was.
pub proof fn guarded_increment_effect(
    s: Map<Seq<u8>, AccountState>,
    program_id: Address,
    accounts: Seq<AccountInfo>,
    ix_data: Seq<u8>,
    rent: RentExemption,
)
    requires
        increment_once::increment_outcome(s, program_id, accounts, ix_data, rent) is Ok,
    ensures
        accounts.len() >= 4,
        ix_data.len() >= 1,
        load_counter_spec(s, program_id, accounts[0]) is Ok,
        load_counter_spec(s, program_id, accounts[0])->Ok_0.state.count < u64::MAX,
        is_canonical_address(
            HasIncremented::seeds(accounts[2].key),
            ix_data[0],
            program_id@,
            accounts[1].key@,
        ),
        !record_exists(s, accounts[1].key@),
        ({
            let before = load_counter_spec(s, program_id, accounts[0])->Ok_0;
            let after = increment_once::increment_outcome(
                s,
                program_id,
                accounts,
                ix_data,
                rent,
            )->Ok_0;
            &&& load_counter_spec(after, program_id, accounts[0]) == Ok::<
                CounterAccount,
                ErrorCode,
            >(
                CounterAccount {
                    info: accounts[0],
                    state: Counter {
                        count: (before.state.count + 1) as u64,
                        bump: before.state.bump,
                    },
                },
            )
            &&& counter_value(s, accounts[0].key@) == Some(before.state.count)
            &&& counter_value(after, accounts[0].key@) == Some((before.state.count + 1) as u64)
            &&& record_exists(after, accounts[1].key@)
            &&& account_at(after, accounts[1].key@).owner == program_id@
            &&& account_at(after, accounts[1].key@).data == (HasIncremented {
                has_incremented: true,
            }).encoding()
            &&& account_at(after, accounts[1].key@).lamports >= rent.has_incremented
            &&& claimed(after, program_id, accounts[2].key)
            &&& forall|key: Seq<u8>| record_exists(s, key) ==> record_exists(after, key)
            &&& forall|key: Seq<u8>|
                key != accounts[2].key@ ==> account_at(after, key).lamports >= account_at(
                    s,
                    key,
                ).lamports
            &&& forall|key: Seq<u8>|
                key != accounts[0].key@ && key != accounts[1].key@ && key != accounts[2].key@
                    ==> account_at(after, key) == account_at(s, key)
        }),
{
    program_is_not_the_service();
    let before = load_counter_spec(s, program_id, accounts[0])->Ok_0;
    counter_roundtrip(
        Counter { count: (before.state.count + 1) as u64, bump: before.state.bump },
    );
    guard_roundtrip(HasIncremented { has_incremented: true });
    planned_record_is_funded(s, accounts[1].key@, accounts[2].key@, rent.has_incremented);
    let after = increment_once::increment_outcome(s, program_id, accounts, ix_data, rent)->Ok_0;
    assert(record_exists(after, accounts[1].key@));
    assert(is_canonical_address(
        HasIncremented::seeds(accounts[2].key),
        ix_data[0],
        program_id@,
        accounts[1].key@,
    ));
}

/// The refusal that an identity meets once it has incremented: that of the
/// first check it fails among those that come before its guard is planned,
/// and `RecordAlreadyExists` where it passes them all.
pub open spec fn refusal_once_claimed(
    s: Map<Seq<u8>, AccountState>,
    program_id: Address,
    accounts: Seq<AccountInfo>,
    ix_data: Seq<u8>,
) -> ErrorCode {
    match increment_once::Increment::admitted(s, program_id, accounts, ix_data) {
        Err(e) => e,
        Ok(_) => ErrorCode::RecordAlreadyExists,
    }
}

/// An identity that has incremented is refused whenever it asks again,
/// whatever it holds and whatever the count is: every request that names it
/// as the requester and passes the checks that come before the guard is
/// planned is refused with `RecordAlreadyExists`, and every other with the
/// refusal of the first of those checks that it fails.
pub proof fn claimed_identity_is_refused(
    s: Map<Seq<u8>, AccountState>,
    program_id: Address,
    accounts: Seq<AccountInfo>,
    ix_data: Seq<u8>,
    rent: RentExemption,
)
    requires
        accounts.len() >= 3 ==> claimed(s, program_id, accounts[2].key),
    ensures
        increment_once::increment_outcome(s, program_id, accounts, ix_data, rent) == Err::<
            Map<Seq<u8>, AccountState>,
            ErrorCode,
        >(refusal_once_claimed(s, program_id, accounts, ix_data)),
        increment_once::Increment::admitted(s, program_id, accounts, ix_data) is Ok
            ==> increment_once::increment_outcome(s, program_id, accounts, ix_data, rent) == Err::<
            Map<Seq<u8>, AccountState>,
            ErrorCode,
        >(ErrorCode::RecordAlreadyExists),
        refusal_once_claimed(s, program_id, accounts, ix_data) != ErrorCode::InsufficientFunding,
        refusal_once_claimed(s, program_id, accounts, ix_data) != ErrorCode::Overflow,
{
    if accounts.len() >= 3 && ix_data.len() >= 1 {
        let user = accounts[2].key;
        let (nonce, guard) = choose|nonce: u8, guard: Seq<u8>|
            #![trigger is_canonical_address(HasIncremented::seeds(user), nonce, program_id@, guard)]
            is_canonical_address(HasIncremented::seeds(user), nonce, program_id@, guard)
                && record_exists(s, guard);
        if is_canonical_address(
            HasIncremented::seeds(user),
            ix_data[0],
            program_id@,
            accounts[1].key@,
        ) {
            crate::address::canonical_is_unique(
                HasIncremented::seeds(user),
                program_id@,
                nonce,
                ix_data[0],
            );
        }
    }
}

/// Idempotent rejection. After an identity's increment was carried out,
/// every guarded increment that names the same identity as the requester is
/// refused: with `RecordAlreadyExists` where it passes the checks that come
/// before the guard is planned, as the same instruction once more does, and
/// else with the refusal of the first of those checks that it fails. A
/// refusal leaves the ledger, and so the count, as it was.
pub proof fn second_increment_is_refused(
    s: Map<Seq<u8>, AccountState>,
    program_id: Address,
    first: Seq<AccountInfo>,
    first_data: Seq<u8>,
    second: Seq<AccountInfo>,
    second_data: Seq<u8>,
    rent: RentExemption,
    later_rent: RentExemption,
)
    requires
        increment_once::increment_outcome(s, program_id, first, first_data, rent) is Ok,
        second.len() >= 3 ==> second[2].key@ == first[2].key@,
    ensures
        ({
            let after = increment_once::increment_outcome(
                s,
                program_id,
                first,
                first_data,
                rent,
            )->Ok_0;
            let again = increment_once::increment_outcome(
                after,
                program_id,
                second,
                second_data,
                later_rent,
            );
            &&& again == Err::<Map<Seq<u8>, AccountState>, ErrorCode>(
                refusal_once_claimed(after, program_id, second, second_data),
            )
            &&& increment_once::Increment::admitted(after, program_id, second, second_data) is Ok
                ==> again == Err::<Map<Seq<u8>, AccountState>, ErrorCode>(
                ErrorCode::RecordAlreadyExists,
            )
            &&& increment_once::Increment::admitted(after, program_id, first, first_data) is Ok
            &&& second == first && second_data == first_data ==> again == Err::<
                Map<Seq<u8>, AccountState>,
                ErrorCode,
            >(ErrorCode::RecordAlreadyExists)
            &&& settled(after, again) == after
            &&& counter_value(settled(after, again), first[0].key@) == counter_value(
                after,
                first[0].key@,
            )
        }),
{
    guarded_increment_effect(s, program_id, first, first_data, rent);
    let after = increment_once::increment_outcome(s, program_id, first, first_data, rent)->Ok_0;
    if second.len() >= 3 {
        crate::address::same_bytes_same_address(second[2].key, first[2].key);
    }
    claimed_identity_is_refused(after, program_id, second, second_data, later_rent);
}

/// An instruction as it reaches the guarded program: the records that it
/// references, and its payload.
pub struct Request {
    pub accounts: Seq<AccountInfo>,
    pub data: Seq<u8>,
}

/// The outcome of the request on the ledger.
pub open spec fn outcome_of(
    s: Map<Seq<u8>, AccountState>,
    program_id: Address,
    rent: RentExemption,
    request: Request,
) -> Result<Map<Seq<u8>, AccountState>, ErrorCode> {
    increment_once::entry_outcome(s, program_id, request.accounts, request.data, rent)
}

/// The ledger after the requests, taken one after the other in their
/// order.
pub open spec fn run(
    s: Map<Seq<u8>, AccountState>,
    program_id: Address,
    rent: RentExemption,
    requests: Seq<Request>,
) -> Map<Seq<u8>, AccountState>
    decreases requests.len(),
{
    if requests.len() == 0 {
        s
    } else {
        run(
            settled(s, outcome_of(s, program_id, rent, requests[0])),
            program_id,
            rent,
            requests.drop_first(),
        )
    }
}

/// How many of the requests are carried out when they are taken one after
/// the other in their order.
pub open spec fn carried_out(
    s: Map<Seq<u8>, AccountState>,
    program_id: Address,
    rent: RentExemption,
    requests: Seq<Request>,
) -> nat
    decreases requests.len(),
{
    if requests.len() == 0 {
        0
    } else {
        let first: nat = if outcome_of(s, program_id, rent, requests[0]) is Ok {
            1
        } else {
            0
        };
        first + carried_out(
            settled(s, outcome_of(s, program_id, rent, requests[0])),
            program_id,
            rent,
            requests.drop_first(),
        )
    }
}

/// The request is an increment; where it references that many records, the
/// first is the counter and the third, the requester, is the identity.
pub open spec fn is_increment_by(request: Request, user: Address, counter: Address) -> bool {
    &&& route_spec(request.data) == Ok::<Opcode, ErrorCode>(Opcode::Increment)
    &&& request.accounts.len() >= 1 ==> request.accounts[0].key@ == counter@
    &&& request.accounts.len() >= 3 ==> request.accounts[2].key@ == user@
}

/// The earlier of two increments leaves the later one what it needs: their
/// requesters differ, their guards differ, and the earlier requester, who
/// pays, is not the later one's guard.
pub open spec fn apart(earlier: Request, later: Request) -> bool {
    &&& earlier.accounts[2].key@ != later.accounts[2].key@
    &&& earlier.accounts[1].key@ != later.accounts[1].key@
    &&& earlier.accounts[2].key@ != later.accounts[1].key@
}

proof fn claimed_identity_stays_refused(
    s: Map<Seq<u8>, AccountState>,
    program_id: Address,
    rent: RentExemption,
    user: Address,
    counter: Address,
    requests: Seq<Request>,
)
    requires
        claimed(s, program_id, user),
        forall|i: int| 0 <= i < requests.len() ==> is_increment_by(requests[i], user, counter),
    ensures
        run(s, program_id, rent, requests) == s,
        carried_out(s, program_id, rent, requests) == 0,
    decreases requests.len(),
{
    if requests.len() > 0 {
        let first = requests[0];
        assert(is_increment_by(first, user, counter));
        if first.accounts.len() >= 3 {
            same_bytes_same_address(first.accounts[2].key, user);
        }
        claimed_identity_is_refused(
            s,
            program_id,
            first.accounts,
            arguments_spec(first.data),
            rent,
        );
        let rest = requests.drop_first();
        assert forall|i: int| 0 <= i < rest.len() implies is_increment_by(
            rest[i],
            user,
            counter,
        ) by {
            assert(rest[i] == requests[i + 1]);
        }
        claimed_identity_stays_refused(s, program_id, rent, user, counter, rest);
    }
}

/// Exactly once under concurrency. However many increments one identity
/// submits at once, and in whatever order the ledger takes them, at most
/// one is carried out, and exactly one if any of them would be carried out
/// alone. The count grows by one if one was carried out, and the ledger
/// stays as it was if none was.
pub proof fn one_identity_counts_once(
    s: Map<Seq<u8>, AccountState>,
    program_id: Address,
    rent: RentExemption,
    user: Address,
    counter: Address,
    requests: Seq<Request>,
)
    requires
        forall|i: int| 0 <= i < requests.len() ==> is_increment_by(requests[i], user, counter),
    ensures
        carried_out(s, program_id, rent, requests) <= 1,
        (exists|i: int|
            0 <= i < requests.len() && outcome_of(s, program_id, rent, requests[i]) is Ok)
            ==> carried_out(s, program_id, rent, requests) == 1,
        carried_out(s, program_id, rent, requests) == 0 ==> run(s, program_id, rent, requests)
            == s,
        carried_out(s, program_id, rent, requests) == 1 ==> {
            &&& counter_value(s, counter@) is Some
            &&& counter_value(run(s, program_id, rent, requests), counter@) == Some(
                (counter_value(s, counter@)->Some_0 + 1) as u64,
            )
            &&& counter_value(s, counter@)->Some_0 < u64::MAX
            &&& claimed(run(s, program_id, rent, requests), program_id, user)
        },
    decreases requests.len(),
{
    if requests.len() > 0 {
        let first = requests[0];
        let rest = requests.drop_first();
        assert(is_increment_by(first, user, counter));
        assert forall|i: int| 0 <= i < rest.len() implies is_increment_by(
            rest[i],
            user,
            counter,
        ) by {
            assert(rest[i] == requests[i + 1]);
        }
        if outcome_of(s, program_id, rent, first) is Ok {
            let after = outcome_of(s, program_id, rent, first)->Ok_0;
            guarded_increment_effect(
                s,
                program_id,
                first.accounts,
                arguments_spec(first.data),
                rent,
            );
            same_bytes_same_address(first.accounts[2].key, user);
            claimed_identity_stays_refused(after, program_id, rent, user, counter, rest);
        } else {
            one_identity_counts_once(s, program_id, rent, user, counter, rest);
            if exists|i: int|
                0 <= i < requests.len() && outcome_of(s, program_id, rent, requests[i]) is Ok {
                let i = choose|i: int|
                    0 <= i < requests.len() && outcome_of(s, program_id, rent, requests[i]) is Ok;
                assert(rest[i - 1] == requests[i]);
            }
        }
    }
}

/// An increment that would be carried out still is after another
/// identity's increment, where the two are apart and the count leaves room
/// for both.
pub proof fn increments_apart_do_not_interfere(
    s: Map<Seq<u8>, AccountState>,
    program_id: Address,
    rent: RentExemption,
    a: Request,
    b: Request,
)
    requires
        route_spec(a.data) == Ok::<Opcode, ErrorCode>(Opcode::Increment),
        route_spec(b.data) == Ok::<Opcode, ErrorCode>(Opcode::Increment),
        outcome_of(s, program_id, rent, a) is Ok,
        outcome_of(s, program_id, rent, b) is Ok,
        a.accounts[0].key@ == b.accounts[0].key@,
        apart(a, b),
        counter_value(s, a.accounts[0].key@)->Some_0 + 2 <= u64::MAX,
    ensures
        outcome_of(outcome_of(s, program_id, rent, a)->Ok_0, program_id, rent, b) is Ok,
{
    program_is_not_the_service();
    guarded_increment_effect(s, program_id, a.accounts, arguments_spec(a.data), rent);
    guarded_increment_effect(s, program_id, b.accounts, arguments_spec(b.data), rent);
    let after = outcome_of(s, program_id, rent, a)->Ok_0;
    let counter = a.accounts[0].key@;
    let guard = b.accounts[1].key@;
    let user = b.accounts[2].key@;
    same_bytes_same_address(a.accounts[0].key, b.accounts[0].key);
    assert(record_exists(s, counter));
    assert(guard != counter);
    assert(account_at(after, guard) == account_at(s, guard));
    assert(account_at(after, user).lamports >= account_at(s, user).lamports);
    assert(load_counter_spec(after, program_id, b.accounts[0]) is Ok) by {
        assert(account_at(after, counter) == account_at(after, b.accounts[0].key@));
    }
}

/// Multi-identity additivity. Where each of a number of increments would be
/// carried out alone, all name the same counter, each is apart from those
/// that follow it, and the count leaves room for all, every one of them is
/// carried out when the ledger takes them one after the other; the count
/// grows by their number, and each requester's guard lives at its address
/// afterwards. That the guards of distinct identities differ is asked for,
/// not shown: a derived address is a hash of its seeds.
pub proof fn distinct_identities_add_up(
    s: Map<Seq<u8>, AccountState>,
    program_id: Address,
    rent: RentExemption,
    counter: Address,
    requests: Seq<Request>,
)
    requires
        forall|i: int|
            0 <= i < requests.len() ==> {
                &&& route_spec(#[trigger] requests[i].data) == Ok::<Opcode, ErrorCode>(
                    Opcode::Increment,
                )
                &&& outcome_of(s, program_id, rent, requests[i]) is Ok
                &&& requests[i].accounts[0].key@ == counter@
            },
        forall|i: int, j: int|
            0 <= i < j < requests.len() ==> apart(#[trigger] requests[i], #[trigger] requests[j]),
        counter_value(s, counter@) is Some,
        counter_value(s, counter@)->Some_0 + requests.len() <= u64::MAX,
    ensures
        carried_out(s, program_id, rent, requests) == requests.len(),
        counter_value(run(s, program_id, rent, requests), counter@) == Some(
            (counter_value(s, counter@)->Some_0 + requests.len()) as u64,
        ),
        forall|i: int|
            0 <= i < requests.len() ==> record_exists(
                run(s, program_id, rent, requests),
                (#[trigger] requests[i]).accounts[1].key@,
            ),
        forall|key: Seq<u8>|
            record_exists(s, key) ==> record_exists(run(s, program_id, rent, requests), key),
    decreases requests.len(),
{
    if requests.len() > 0 {
        let first = requests[0];
        let rest = requests.drop_first();
        let after = outcome_of(s, program_id, rent, first)->Ok_0;
        assert(route_spec(first.data) == Ok::<Opcode, ErrorCode>(Opcode::Increment));
        guarded_increment_effect(s, program_id, first.accounts, arguments_spec(first.data), rent);
        assert forall|i: int| 0 <= i < rest.len() implies {
            &&& route_spec(#[trigger] rest[i].data) == Ok::<Opcode, ErrorCode>(Opcode::Increment)
            &&& outcome_of(after, program_id, rent, rest[i]) is Ok
            &&& rest[i].accounts[0].key@ == counter@
        } by {
            assert(rest[i] == requests[i + 1]);
            assert(route_spec(requests[i + 1].data) == Ok::<Opcode, ErrorCode>(
                Opcode::Increment,
            ));
            assert(apart(requests[0], requests[i + 1]));
            increments_apart_do_not_interfere(s, program_id, rent, first, rest[i]);
        }
        assert forall|i: int, j: int| 0 <= i < j < rest.len() implies apart(
            #[trigger] rest[i],
            #[trigger] rest[j],
        ) by {
            assert(rest[i] == requests[i + 1]);
            assert(rest[j] == requests[j + 1]);
            assert(apart(requests[i + 1], requests[j + 1]));
        }
        distinct_identities_add_up(after, program_id, rent, counter, rest);
        let end = run(s, program_id, rent, requests);
        assert(end == run(after, program_id, rent, rest));
        assert forall|i: int| 0 <= i < requests.len() implies record_exists(
            end,
            (#[trigger] requests[i]).accounts[1].key@,
        ) by {
            if i > 0 {
                assert(rest[i - 1] == requests[i]);
            }
        }
    }
}

/// Records live indefinitely, and the count only grows. Whatever
/// instruction reaches either program, carried out or refused: a record
/// that lived at an address before still lives there after; an address
/// that held a counter still holds one, with a count that is no smaller; a
/// counter of the program that lived at the address its nonce derives still
/// does, with the same nonce; and an identity that had incremented still
/// has.
pub proof fn records_persist(
    s: Map<Seq<u8>, AccountState>,
    program_id: Address,
    accounts: Seq<AccountInfo>,
    data: Seq<u8>,
    rent: RentExemption,
    key: Seq<u8>,
    user: Address,
    info: AccountInfo,
)
    ensures
        ({
            let guarded = settled(
                s,
                increment_once::entry_outcome(s, program_id, accounts, data, rent),
            );
            let unrestricted = settled(
                s,
                increment::entry_outcome(s, program_id, accounts, data, rent),
            );
            &&& record_exists(s, key) ==> record_exists(guarded, key) && record_exists(
                unrestricted,
                key,
            )
            &&& counter_value(s, key) matches Some(count) ==> {
                &&& counter_value(guarded, key) matches Some(after) && after >= count
                &&& counter_value(unrestricted, key) matches Some(after) && after >= count
            }
            &&& load_counter_spec(s, program_id, info) matches Ok(before) ==> {
                &&& load_counter_spec(guarded, program_id, info) matches Ok(after)
                    && after.state.bump == before.state.bump && after.state.count
                    >= before.state.count
                &&& load_counter_spec(unrestricted, program_id, info) matches Ok(after)
                    && after.state.bump == before.state.bump && after.state.count
                    >= before.state.count
            }
            &&& claimed(s, program_id, user) ==> claimed(guarded, program_id, user)
        }),
{
    program_is_not_the_service();
    let ix_data = arguments_spec(data);
    let guarded = increment_once::entry_outcome(s, program_id, accounts, data, rent);
    let unrestricted = increment::entry_outcome(s, program_id, accounts, data, rent);
    if route_spec(data) == Ok::<Opcode, ErrorCode>(Opcode::Create) {
        if create_outcome(s, program_id, accounts, ix_data, rent) is Ok {
            let after = create_outcome(s, program_id, accounts, ix_data, rent)->Ok_0;
            counter_roundtrip(Counter { count: 0, bump: ix_data[0] });
            assert(forall|k: Seq<u8>| record_exists(s, k) ==> record_exists(after, k));
            if counter_value(s, key) is Some {
                assert(record_exists(s, key));
                assert(account_at(after, key).data == account_at(s, key).data);
            }
            if load_counter_spec(s, program_id, info) is Ok {
                assert(record_exists(s, info.key@));
                assert(account_at(after, info.key@).data == account_at(s, info.key@).data);
                assert(account_at(after, info.key@).owner == account_at(s, info.key@).owner);
            }
        }
    } else if route_spec(data) == Ok::<Opcode, ErrorCode>(Opcode::Increment) {
        if increment_once::increment_outcome(s, program_id, accounts, ix_data, rent) is Ok {
            guarded_increment_effect(s, program_id, accounts, ix_data, rent);
            let after = increment_once::increment_outcome(
                s,
                program_id,
                accounts,
                ix_data,
                rent,
            )->Ok_0;
            if counter_value(s, key) is Some {
                assert(record_exists(s, key));
                if key != accounts[0].key@ {
                    assert(account_at(after, key).data == account_at(s, key).data);
                }
            }
            if load_counter_spec(s, program_id, info) is Ok {
                assert(record_exists(s, info.key@));
                if info.key@ != accounts[0].key@ {
                    assert(account_at(after, info.key@).data == account_at(s, info.key@).data);
                    assert(account_at(after, info.key@).owner == account_at(s, info.key@).owner);
                }
            }
        }
        if increment::increment_outcome(s, program_id, accounts, ix_data) is Ok {
            unrestricted_increment_counts(s, program_id, accounts, ix_data);
        }
    }
    if claimed(s, program_id, user) {
        let after = settled(s, guarded);
        let (nonce, guard) = choose|nonce: u8, guard: Seq<u8>|
            #![trigger is_canonical_address(HasIncremented::seeds(user), nonce, program_id@, guard)]
            is_canonical_address(HasIncremented::seeds(user), nonce, program_id@, guard)
                && record_exists(s, guard);
        assert(record_exists(s, guard) ==> record_exists(after, guard)) by {
            if route_spec(data) == Ok::<Opcode, ErrorCode>(Opcode::Create) && create_outcome(
                s,
                program_id,
                accounts,
                ix_data,
                rent,
            ) is Ok {
                let created = create_outcome(s, program_id, accounts, ix_data, rent)->Ok_0;
                assert(forall|k: Seq<u8>| record_exists(s, k) ==> record_exists(created, k));
            }
        }
        assert(is_canonical_address(HasIncremented::seeds(user), nonce, program_id@, guard));
    }
}

} // verus!

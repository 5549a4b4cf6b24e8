//! How a record comes into being.
//!
//! A record is created at an address only where none lives yet, and only
//! with the balance that keeps it on the ledger. The payer provides what
//! the address lacks of that balance. Creation is planned against the
//! ledger as it stands and carried out later, so that whoever plans can still
//! refuse without having changed anything.

use crate::account::{Account, AccountState};
use crate::address::{derived, seeds_view, Address};
use crate::bytes::push_tag;
use crate::error::ErrorCode;
use crate::ledger::{account_at, record_exists, Ledger};
use vstd::prelude::*;

verus! {

/// The balances that a creation leaves: the payer's and the new record's.
#[derive(Clone, Copy, Debug, PartialEq, Eq, Structural)]
pub struct Funding {
    pub payer_lamports: u64,
    pub record_lamports: u64,
}

/// What an address that holds `current` lamports lacks of the balance that
/// keeps a record there.
pub open spec fn shortfall(current: u64, minimum_balance: u64) -> u64 {
    if minimum_balance > current {
        (minimum_balance - current) as u64
    } else {
        0
    }
}

/// Whether the payer can provide what the address lacks. A payer cannot
/// provide anything to its own address.
pub open spec fn can_fund(
    s: Map<Seq<u8>, AccountState>,
    address: Seq<u8>,
    payer: Seq<u8>,
    minimum_balance: u64,
) -> bool {
    let lacking = shortfall(account_at(s, address).lamports, minimum_balance);
    if payer == address {
        lacking == 0
    } else {
        account_at(s, payer).lamports >= lacking
    }
}

/// The outcome of planning a record at `address`, paid for by `payer`, that
/// `minimum_balance` keeps on the ledger. It is refused where a record lives
/// there already, or where the payer cannot provide what the address lacks.
/// Otherwise the payer provides exactly that, and the record holds the
/// greater of what the address held and the minimum balance.
pub open spec fn plan_spec(
    s: Map<Seq<u8>, AccountState>,
    address: Seq<u8>,
    payer: Seq<u8>,
    minimum_balance: u64,
) -> Result<Funding, ErrorCode> {
    let held = account_at(s, address).lamports;
    let lacking = shortfall(held, minimum_balance);
    if record_exists(s, address) {
        Err(ErrorCode::RecordAlreadyExists)
    } else if !can_fund(s, address, payer, minimum_balance) {
        Err(ErrorCode::InsufficientFunding)
    } else {
        Ok(
            Funding {
                payer_lamports: (account_at(s, payer).lamports - lacking) as u64,
                record_lamports: (held + lacking) as u64,
            },
        )
    }
}

/// A planned record is funded, and nothing is made or lost: the record
/// holds at least the minimum balance and no less than the address held;
/// where the payer is another address, payer and record together hold what
/// payer and address held; where it is the same address, the balance stays.
pub proof fn planned_record_is_funded(
    s: Map<Seq<u8>, AccountState>,
    address: Seq<u8>,
    payer: Seq<u8>,
    minimum_balance: u64,
)
    requires
        plan_spec(s, address, payer, minimum_balance) is Ok,
    ensures
        ({
            let funding = plan_spec(s, address, payer, minimum_balance)->Ok_0;
            &&& funding.record_lamports >= minimum_balance
            &&& funding.record_lamports >= account_at(s, address).lamports
            &&& funding.payer_lamports <= account_at(s, payer).lamports
            &&& payer != address ==> funding.payer_lamports + funding.record_lamports
                == account_at(s, payer).lamports + account_at(s, address).lamports
            &&& payer == address ==> funding.payer_lamports == account_at(s, address).lamports
                && funding.record_lamports == account_at(s, address).lamports
        }),
{
}

/// The ledger after a planned creation: the payer holds what the plan
/// leaves it, and the address holds the record, owned by `owner`.
pub open spec fn created(
    s: Map<Seq<u8>, AccountState>,
    address: Seq<u8>,
    payer: Seq<u8>,
    owner: Seq<u8>,
    funding: Funding,
    data: Seq<u8>,
) -> Map<Seq<u8>, AccountState> {
    let source = account_at(s, payer);
    s.insert(
        payer,
        AccountState { lamports: funding.payer_lamports, owner: source.owner, data: source.data },
    ).insert(address, AccountState { lamports: funding.record_lamports, owner, data })
}

/// The outcome of creating a record with the given data at `address`: the
/// ledger after it, or why it was refused. The address must be the one that
/// seeds, nonce and owner derive.
pub open spec fn create_record_spec(
    s: Map<Seq<u8>, AccountState>,
    address: Seq<u8>,
    seeds: Seq<Seq<u8>>,
    nonce: u8,
    owner: Seq<u8>,
    payer: Seq<u8>,
    minimum_balance: u64,
    data: Seq<u8>,
) -> Result<Map<Seq<u8>, AccountState>, ErrorCode> {
    if derived(seeds, nonce, owner) != Some(address) {
        Err(ErrorCode::InvalidDerivation)
    } else {
        match plan_spec(s, address, payer, minimum_balance) {
            Err(e) => Err(e),
            Ok(funding) => Ok(created(s, address, payer, owner, funding, data)),
        }
    }
}

/// Plans a record at `address`, paid for by `payer`, that `minimum_balance`
/// keeps on the ledger.
pub fn plan_creation(ledger: &Ledger, address: &Address, payer: &Address, minimum_balance: u64) -> (r:
    Result<Funding, ErrorCode>)
    ensures
        r == plan_spec(ledger@, address@, payer@, minimum_balance),
        r matches Ok(funding) ==> funding.record_lamports >= minimum_balance,
{
    let target = ledger.account(address);
    if target.is_record() {
        return Err(ErrorCode::RecordAlreadyExists);
    }
    let needed: u64 = if target.lamports == 0 {
        minimum_balance
    } else {
        let floor: u64 = if minimum_balance >= 1 {
            minimum_balance
        } else {
            1
        };
        if floor >= target.lamports {
            floor - target.lamports
        } else {
            0
        }
    };
    assert(needed == shortfall(target.lamports, minimum_balance));
    let source = ledger.account(payer);
    if *payer == *address {
        if needed > 0 {
            return Err(ErrorCode::InsufficientFunding);
        }
    } else if source.lamports < needed {
        return Err(ErrorCode::InsufficientFunding);
    }
    Ok(
        Funding {
            payer_lamports: source.lamports - needed,
            record_lamports: target.lamports + needed,
        },
    )
}

/// Carries out a planned creation.
pub fn commit_creation(
    ledger: &mut Ledger,
    address: Address,
    payer: &Address,
    owner: Address,
    funding: Funding,
    data: Vec<u8>,
)
    ensures
        final(ledger)@ == created(old(ledger)@, address@, payer@, owner@, funding, data@),
{
    let mut source = ledger.account(payer);
    source.lamports = funding.payer_lamports;
    ledger.set_account(*payer, source);
    ledger.set_account(address, Account { lamports: funding.record_lamports, owner, data });
}

/// Creates a record at `address`, owned by `owner` and paid for by `payer`,
/// that holds the type tag followed by the payload and that
/// `minimum_balance` keeps on the ledger. The address is checked against
/// seeds and nonce first. A refusal leaves the ledger as it was.
pub fn create_record(
    ledger: &mut Ledger,
    address: &Address,
    seeds: &Vec<Vec<u8>>,
    nonce: u8,
    owner: &Address,
    payer: &Address,
    minimum_balance: u64,
    tag: &[u8; 8],
    initial_payload: &[u8],
) -> (r: Result<(), ErrorCode>)
    ensures
        match create_record_spec(
            old(ledger)@,
            address@,
            seeds_view(seeds@),
            nonce,
            owner@,
            payer@,
            minimum_balance,
            tag@ + initial_payload@,
        ) {
            Ok(s) => r is Ok && final(ledger)@ == s,
            Err(e) => r == Err::<(), ErrorCode>(e) && final(ledger)@ == old(ledger)@,
        },
{
    match crate::address::derive(seeds, nonce, owner) {
        Some(a) => {
            if a != *address {
                return Err(ErrorCode::InvalidDerivation);
            }
        },
        None => {
            return Err(ErrorCode::InvalidDerivation);
        },
    }
    let funding = match plan_creation(ledger, address, payer, minimum_balance) {
        Ok(funding) => funding,
        Err(e) => {
            return Err(e);
        },
    };
    let mut data: Vec<u8> = Vec::new();
    push_tag(&mut data, tag);
    let mut i: usize = 0;
    while i < initial_payload.len()
        invariant
            i <= initial_payload.len(),
            data@ == tag@ + initial_payload@.subrange(0, i as int),
        decreases initial_payload.len() - i,
    {
        data.push(initial_payload[i]);
        i += 1;
        assert(data@ =~= tag@ + initial_payload@.subrange(0, i as int));
    }
    assert(initial_payload@.subrange(0, i as int) =~= initial_payload@);
    commit_creation(ledger, *address, payer, *owner, funding, data);
    Ok(())
}

} // verus!

use increment_once::account::{system_program, Account, AccountInfo};
use increment_once::address::{find, Address};
use increment_once::error::ErrorCode;
use increment_once::increment_once::global;
use increment_once::increment_once::{
    dispatch, load_counter, store_counter, CounterAccount, Create, Increment,
};
use increment_once::instruction;
use increment_once::ledger::Ledger;
use increment_once::program::id;
use increment_once::record::Funding;
use increment_once::rent::RentExemption;
use increment_once::state::{Counter, HasIncremented};

fn rent() -> RentExemption {
    RentExemption::default_rent()
}

fn user() -> Address {
    Address::new_from_array([7; 32])
}

fn counter() -> (Address, u8) {
    find(&Counter::seed_list(), &id()).unwrap()
}

fn guard() -> (Address, u8) {
    find(&HasIncremented::seed_list(&user()), &id()).unwrap()
}

fn funded() -> Ledger {
    let mut ledger = Ledger::new();
    ledger.set_account(
        user(),
        Account { lamports: 3_000_000, owner: system_program(), data: Vec::new() },
    );
    ledger
}

fn for_create() -> Vec<AccountInfo> {
    vec![
        AccountInfo { key: counter().0, is_signer: false, is_writable: true },
        AccountInfo { key: user(), is_signer: true, is_writable: false },
        AccountInfo { key: system_program(), is_signer: false, is_writable: false },
    ]
}

fn for_increment() -> Vec<AccountInfo> {
    vec![
        AccountInfo { key: counter().0, is_signer: false, is_writable: true },
        AccountInfo { key: guard().0, is_signer: false, is_writable: true },
        AccountInfo { key: user(), is_signer: true, is_writable: true },
        AccountInfo { key: system_program(), is_signer: false, is_writable: false },
    ]
}

#[test]
fn checking_a_create_changes_nothing() {
    let ledger = funded();
    let accounts = for_create();
    let ctx = Create::try_accounts(&id(), &ledger, &accounts, &[counter().1], &rent()).unwrap();
    assert_eq!(ctx.counter.info, accounts[0]);
    assert_eq!(ctx.counter.state, Counter { count: 0, bump: 0 });
    assert_eq!(ctx.user, accounts[1]);
    assert_eq!(ctx.system_program, accounts[2]);
    assert_eq!(ctx.funding, Funding { payer_lamports: 1_990_800, record_lamports: 1_009_200 });
    assert!(!ledger.contains(&counter().0));
    assert_eq!(ledger.account(&user()).lamports, 3_000_000);
    assert_eq!(ctx.to_account_infos(), accounts);
    let metas = ctx.to_account_metas(Some(true));
    assert_eq!(metas.len(), 3);
    for (meta, info) in metas.iter().zip(accounts.iter()) {
        assert_eq!(meta.to_account_info(), *info);
        assert_eq!(info.to_account_meta(), *meta);
    }
}

#[test]
fn create_runs_in_three_steps() {
    let mut ledger = funded();
    let bump = counter().1;
    let mut ctx = Create::try_accounts(&id(), &ledger, &for_create(), &[bump], &rent()).unwrap();
    assert_eq!(increment_once::increment_once::create(&mut ctx, bump), Ok(()));
    assert_eq!(ctx.counter.state, Counter { count: 0, bump });
    assert_eq!(ctx.exit(&id(), &mut ledger), Ok(()));
    assert_eq!(ledger.account(&user()).lamports, 1_990_800);
    let stored = ledger.account(&counter().0);
    assert_eq!(stored.lamports, 1_009_200);
    assert_eq!(stored.owner, id());
    assert_eq!(Counter::try_deserialize(&stored.data), Ok(Counter { count: 0, bump }));
}

#[test]
fn increment_runs_in_three_steps() {
    let mut ledger = funded();
    assert_eq!(global::create(&id(), &mut ledger, &for_create(), &[counter().1], &rent()), Ok(()));
    let accounts = for_increment();
    let mut ctx = Increment::try_accounts(&id(), &ledger, &accounts, &[guard().1], &rent()).unwrap();
    assert_eq!(ctx.counter.state, Counter { count: 0, bump: counter().1 });
    assert_eq!(ctx.has_incremented.state, HasIncremented { has_incremented: false });
    assert_eq!(ctx.funding, Funding { payer_lamports: 1_037_280, record_lamports: 953_520 });
    assert_eq!(ctx.to_account_infos(), accounts);
    let metas = ctx.to_account_metas(None);
    assert_eq!(metas.len(), 4);
    for (meta, info) in metas.iter().zip(accounts.iter()) {
        assert_eq!(meta.to_account_info(), *info);
    }
    assert_eq!(increment_once::increment_once::increment(&mut ctx, guard().1), Ok(()));
    assert_eq!(ctx.counter.state.count, 1);
    assert!(ctx.has_incremented.state.has_incremented);
    assert!(!ledger.contains(&guard().0));
    assert_eq!(ctx.exit(&id(), &mut ledger), Ok(()));
    assert!(ledger.account(&guard().0).is_record());
    assert_eq!(ledger.account(&user()).lamports, 1_037_280);
    assert_eq!(
        Increment::try_accounts(&id(), &ledger, &accounts, &[guard().1], &rent()),
        Err(ErrorCode::RecordAlreadyExists)
    );
}

#[test]
fn full_count_refuses_and_keeps_the_records() {
    let info = AccountInfo { key: counter().0, is_signer: false, is_writable: true };
    let mut ctx = increment_once::increment::Increment {
        counter: CounterAccount { info, state: Counter { count: u64::MAX, bump: 1 } },
    };
    assert_eq!(increment_once::increment::increment(&mut ctx), Err(ErrorCode::Overflow));
    assert_eq!(ctx.counter.state, Counter { count: u64::MAX, bump: 1 });
    ctx.counter.state.count = u64::MAX - 1;
    assert_eq!(increment_once::increment::increment(&mut ctx), Ok(()));
    assert_eq!(ctx.counter.state.count, u64::MAX);
}

#[test]
fn counter_is_loaded_and_stored() {
    let mut ledger = funded();
    let info = AccountInfo { key: counter().0, is_signer: false, is_writable: true };
    assert_eq!(load_counter(&ledger, &id(), &info), Err(ErrorCode::WrongOwner));
    assert_eq!(global::create(&id(), &mut ledger, &for_create(), &[counter().1], &rent()), Ok(()));
    let loaded = load_counter(&ledger, &id(), &info).unwrap();
    assert_eq!(loaded, CounterAccount { info, state: Counter { count: 0, bump: counter().1 } });
    let changed = CounterAccount { info, state: Counter { count: 12, bump: counter().1 } };
    store_counter(&mut ledger, &changed);
    assert_eq!(load_counter(&ledger, &id(), &info), Ok(changed));
    assert_eq!(ledger.account(&counter().0).lamports, 1_009_200);
    assert_eq!(ledger.account(&counter().0).owner, id());
    let other = Address::new_from_array([9; 32]);
    assert_eq!(load_counter(&ledger, &other, &info), Err(ErrorCode::InvalidDerivation));
}

#[test]
fn dispatch_routes_by_opcode() {
    let mut ledger = funded();
    let data = instruction::Create { bump: counter().1 }.data();
    assert_eq!(dispatch(&id(), &mut ledger, &for_create(), &data, &rent()), Ok(()));
    let data = instruction::Increment { _bump: guard().1 }.data();
    assert_eq!(dispatch(&id(), &mut ledger, &for_increment(), &data, &rent()), Ok(()));
    assert_eq!(
        dispatch(&id(), &mut ledger, &for_increment(), &data, &rent()),
        Err(ErrorCode::RecordAlreadyExists)
    );
    assert_eq!(
        dispatch(&id(), &mut ledger, &for_increment(), &[0, 0, 0, 0, 0, 0, 0, 0], &rent()),
        Err(ErrorCode::MalformedInstruction)
    );
    assert_eq!(
        increment_once::increment::dispatch(
            &id(),
            &mut ledger,
            &for_increment(),
            &[0x40, 0xf4, 0xbc, 0x78, 0xa7, 0xe9, 0x69, 0x0a],
            &rent()
        ),
        Err(ErrorCode::IntrospectionNotHandled)
    );
    assert_eq!(
        increment_once::increment::global::increment(&id(), &mut ledger, &for_increment(), &[]),
        Ok(())
    );
    assert_eq!(
        global::increment(&id(), &mut ledger, &for_increment(), &[], &rent()),
        Err(ErrorCode::MalformedInstruction)
    );
    assert_eq!(
        Counter::try_deserialize(&ledger.account(&counter().0).data).unwrap().count,
        2
    );
}

#[test]
fn program_given_another_id_cannot_increment_what_it_created() {
    let other = Address::new_from_array([9; 32]);
    let mut ledger = funded();
    let (address, bump) = find(&Counter::seed_list(), &other).unwrap();
    let mut accounts = for_create();
    accounts[0].key = address;
    assert_eq!(global::create(&other, &mut ledger, &accounts, &[bump], &rent()), Ok(()));
    assert_eq!(ledger.account(&address).owner, other);
    let info = AccountInfo { key: address, is_signer: false, is_writable: true };
    assert_eq!(load_counter(&ledger, &other, &info), Err(ErrorCode::WrongOwner));
}

use increment_once::account::{system_program, Account, AccountInfo};
use increment_once::address::{find, Address};
use increment_once::error::ErrorCode;
use increment_once::instruction;
use increment_once::ledger::Ledger;
use increment_once::program::id;
use increment_once::rent::RentExemption;
use increment_once::state::{Counter, HasIncremented};

fn entry(
    program: &Address,
    ledger: &mut Ledger,
    accounts: &[AccountInfo],
    data: &[u8],
) -> Result<(), ErrorCode> {
    let rent = RentExemption::default_rent();
    increment_once::increment_once::entry(program, ledger, accounts, data, &rent)
}

fn wallet(seed: u8) -> Address {
    Address::new_from_array([seed; 32])
}

fn fund(ledger: &mut Ledger, who: &Address, lamports: u64) {
    ledger.set_account(*who, Account { lamports, owner: system_program(), data: Vec::new() });
}

fn info(key: Address, is_signer: bool, is_writable: bool) -> AccountInfo {
    AccountInfo { key, is_signer, is_writable }
}

fn counter_address() -> (Address, u8) {
    find(&Counter::seed_list(), &id()).unwrap()
}

fn guard_address(user: &Address) -> (Address, u8) {
    find(&HasIncremented::seed_list(user), &id()).unwrap()
}

fn create_accounts(user: Address) -> Vec<AccountInfo> {
    vec![
        info(counter_address().0, false, true),
        info(user, true, false),
        info(system_program(), false, false),
    ]
}

fn increment_accounts(user: Address) -> Vec<AccountInfo> {
    vec![
        info(counter_address().0, false, true),
        info(guard_address(&user).0, false, true),
        info(user, true, true),
        info(system_program(), false, false),
    ]
}

fn create_data() -> Vec<u8> {
    instruction::Create { bump: counter_address().1 }.data()
}

fn increment_data(user: &Address) -> Vec<u8> {
    instruction::Increment { _bump: guard_address(user).1 }.data()
}

fn count(ledger: &Ledger) -> u64 {
    Counter::try_deserialize(&ledger.account(&counter_address().0).data).unwrap().count
}

fn ledger_with_counter(creator: Address) -> Ledger {
    let mut ledger = Ledger::new();
    fund(&mut ledger, &creator, 10_000_000);
    assert_eq!(entry(&id(), &mut ledger, &create_accounts(creator), &create_data()), Ok(()));
    ledger
}

#[test]
fn create_makes_a_counter_of_zero() {
    let user = wallet(7);
    let ledger = ledger_with_counter(user);
    let (counter, bump) = counter_address();
    let stored = ledger.account(&counter);
    assert_eq!(stored.owner, id());
    assert_eq!(stored.lamports, 1_009_200);
    assert_eq!(stored.data.len(), 17);
    assert_eq!(Counter::try_deserialize(&stored.data), Ok(Counter { count: 0, bump }));
    assert_eq!(ledger.account(&user).lamports, 10_000_000 - 1_009_200);
    assert_eq!(ledger.account(&user).owner, system_program());
}

#[test]
fn increment_counts_and_creates_the_guard() {
    let user = wallet(7);
    let mut ledger = ledger_with_counter(user);
    let accounts = increment_accounts(user);
    assert_eq!(entry(&id(), &mut ledger, &accounts, &increment_data(&user)), Ok(()));
    assert_eq!(count(&ledger), 1);
    let guard = ledger.account(&guard_address(&user).0);
    assert_eq!(guard.owner, id());
    assert_eq!(guard.lamports, 953_520);
    assert_eq!(guard.data, vec![56, 222, 56, 247, 106, 17, 240, 42, 1]);
    assert_eq!(ledger.account(&user).lamports, 10_000_000 - 1_009_200 - 953_520);
    assert_eq!(ledger.account(&counter_address().0).lamports, 1_009_200);
}

#[test]
fn second_increment_is_refused_and_changes_nothing() {
    let user = wallet(7);
    let mut ledger = ledger_with_counter(user);
    let accounts = increment_accounts(user);
    let data = increment_data(&user);
    assert_eq!(entry(&id(), &mut ledger, &accounts, &data), Ok(()));
    let balance = ledger.account(&user).lamports;
    assert_eq!(entry(&id(), &mut ledger, &accounts, &data), Err(ErrorCode::RecordAlreadyExists));
    assert_eq!(count(&ledger), 1);
    assert_eq!(ledger.account(&user).lamports, balance);
}

#[test]
fn second_increment_is_refused_even_without_funds() {
    let user = wallet(9);
    let mut ledger = ledger_with_counter(wallet(7));
    fund(&mut ledger, &user, 953_520);
    let accounts = increment_accounts(user);
    let data = increment_data(&user);
    assert_eq!(entry(&id(), &mut ledger, &accounts, &data), Ok(()));
    assert_eq!(ledger.account(&user).lamports, 0);
    assert_eq!(entry(&id(), &mut ledger, &accounts, &data), Err(ErrorCode::RecordAlreadyExists));
    assert_eq!(count(&ledger), 1);
}

#[test]
fn many_requests_of_one_identity_count_once() {
    let user = wallet(9);
    let mut ledger = ledger_with_counter(wallet(7));
    fund(&mut ledger, &user, 50_000_000);
    let accounts = increment_accounts(user);
    let data = increment_data(&user);
    let mut carried_out = 0;
    for _ in 0..5 {
        if entry(&id(), &mut ledger, &accounts, &data).is_ok() {
            carried_out += 1;
        }
    }
    assert_eq!(carried_out, 1);
    assert_eq!(count(&ledger), 1);
}

#[test]
fn distinct_identities_add_up() {
    let mut ledger = ledger_with_counter(wallet(7));
    for seed in 10..16u8 {
        let user = wallet(seed);
        fund(&mut ledger, &user, 1_000_000);
        assert_eq!(
            entry(&id(), &mut ledger, &increment_accounts(user), &increment_data(&user)),
            Ok(())
        );
    }
    assert_eq!(count(&ledger), 6);
}

#[test]
fn increment_before_create_is_refused() {
    let user = wallet(7);
    let mut ledger = Ledger::new();
    fund(&mut ledger, &user, 10_000_000);
    assert_eq!(
        entry(&id(), &mut ledger, &increment_accounts(user), &increment_data(&user)),
        Err(ErrorCode::WrongOwner)
    );
    assert!(!ledger.contains(&counter_address().0));
    assert!(!ledger.contains(&guard_address(&user).0));
    assert_eq!(ledger.account(&user).lamports, 10_000_000);
}

#[test]
fn create_twice_is_refused() {
    let user = wallet(7);
    let mut ledger = ledger_with_counter(user);
    assert_eq!(
        entry(&id(), &mut ledger, &create_accounts(user), &create_data()),
        Err(ErrorCode::RecordAlreadyExists)
    );
    assert_eq!(ledger.account(&user).lamports, 10_000_000 - 1_009_200);
}

#[test]
fn create_with_a_wrong_nonce_is_refused() {
    let user = wallet(7);
    let mut ledger = Ledger::new();
    fund(&mut ledger, &user, 10_000_000);
    let (_, bump) = counter_address();
    let data = instruction::Create { bump: bump.wrapping_sub(1) }.data();
    assert_eq!(
        entry(&id(), &mut ledger, &create_accounts(user), &data),
        Err(ErrorCode::InvalidDerivation)
    );
    assert!(!ledger.contains(&counter_address().0));
}

#[test]
fn create_at_a_lesser_nonce_is_refused() {
    let user = wallet(7);
    let mut ledger = Ledger::new();
    fund(&mut ledger, &user, 10_000_000);
    let (_, canonical) = counter_address();
    let mut bump = canonical - 1;
    let mut other = increment_once::address::derive(&Counter::seed_list(), bump, &id());
    while other.is_none() {
        bump -= 1;
        other = increment_once::address::derive(&Counter::seed_list(), bump, &id());
    }
    let mut accounts = create_accounts(user);
    accounts[0].key = other.unwrap();
    let data = instruction::Create { bump }.data();
    assert_eq!(entry(&id(), &mut ledger, &accounts, &data), Err(ErrorCode::InvalidDerivation));
}

#[test]
fn create_at_another_address_is_refused() {
    let user = wallet(7);
    let mut ledger = Ledger::new();
    fund(&mut ledger, &user, 10_000_000);
    let mut accounts = create_accounts(user);
    accounts[0].key = wallet(99);
    assert_eq!(
        entry(&id(), &mut ledger, &accounts, &create_data()),
        Err(ErrorCode::InvalidDerivation)
    );
}

#[test]
fn increment_with_a_wrong_nonce_is_refused() {
    let user = wallet(7);
    let mut ledger = ledger_with_counter(user);
    let (_, bump) = guard_address(&user);
    let data = instruction::Increment { _bump: bump.wrapping_sub(1) }.data();
    assert_eq!(
        entry(&id(), &mut ledger, &increment_accounts(user), &data),
        Err(ErrorCode::InvalidDerivation)
    );
    assert_eq!(count(&ledger), 0);
}

#[test]
fn increment_with_another_identitys_guard_is_refused() {
    let user = wallet(7);
    let other = wallet(8);
    let mut ledger = ledger_with_counter(user);
    let mut accounts = increment_accounts(user);
    accounts[1].key = guard_address(&other).0;
    let data = increment_data(&other);
    assert_eq!(entry(&id(), &mut ledger, &accounts, &data), Err(ErrorCode::InvalidDerivation));
    assert_eq!(count(&ledger), 0);
}

#[test]
fn increment_of_a_substituted_counter_is_refused() {
    let user = wallet(7);
    let mut ledger = ledger_with_counter(user);
    let (_, bump) = counter_address();
    let fake = wallet(50);
    let mut data: Vec<u8> = Vec::new();
    assert_eq!(Counter { count: 41, bump }.try_serialize(&mut data), Ok(()));
    ledger.set_account(fake, Account { lamports: 1_009_200, owner: id(), data });
    let mut accounts = increment_accounts(user);
    accounts[0].key = fake;
    assert_eq!(
        entry(&id(), &mut ledger, &accounts, &increment_data(&user)),
        Err(ErrorCode::InvalidDerivation)
    );
    assert!(!ledger.contains(&guard_address(&user).0));
}

#[test]
fn short_payload_is_malformed() {
    let mut ledger = Ledger::new();
    let accounts = create_accounts(wallet(7));
    assert_eq!(entry(&id(), &mut ledger, &accounts, &[]), Err(ErrorCode::MalformedInstruction));
    assert_eq!(
        entry(&id(), &mut ledger, &accounts, &[24, 30, 200, 40, 5, 28, 7]),
        Err(ErrorCode::MalformedInstruction)
    );
}

#[test]
fn unknown_opcode_is_malformed() {
    let mut ledger = Ledger::new();
    let accounts = create_accounts(wallet(7));
    assert_eq!(
        entry(&id(), &mut ledger, &accounts, &[1, 2, 3, 4, 5, 6, 7, 8, 9]),
        Err(ErrorCode::MalformedInstruction)
    );
}

#[test]
fn missing_nonce_is_malformed() {
    let user = wallet(7);
    let mut ledger = Ledger::new();
    fund(&mut ledger, &user, 10_000_000);
    assert_eq!(
        entry(&id(), &mut ledger, &create_accounts(user), &[24, 30, 200, 40, 5, 28, 7, 119]),
        Err(ErrorCode::MalformedInstruction)
    );
    assert_eq!(
        entry(&id(), &mut ledger, &increment_accounts(user), &[11, 18, 104, 9, 104, 174, 59, 33]),
        Err(ErrorCode::MalformedInstruction)
    );
}

#[test]
fn bytes_after_the_nonce_are_ignored() {
    let user = wallet(7);
    let mut ledger = Ledger::new();
    fund(&mut ledger, &user, 10_000_000);
    let mut data = create_data();
    data.push(77);
    data.push(78);
    assert_eq!(entry(&id(), &mut ledger, &create_accounts(user), &data), Ok(()));
    assert_eq!(count(&ledger), 0);
}

#[test]
fn introspection_is_not_handled() {
    let mut ledger = Ledger::new();
    let accounts = create_accounts(wallet(7));
    let data = [0x40, 0xf4, 0xbc, 0x78, 0xa7, 0xe9, 0x69, 0x0a, 0];
    assert_eq!(
        entry(&id(), &mut ledger, &accounts, &data),
        Err(ErrorCode::IntrospectionNotHandled)
    );
}

#[test]
fn unsigned_requester_is_told_so_before_a_record_is_missed() {
    let user = wallet(7);
    let mut ledger = ledger_with_counter(user);
    let mut accounts = increment_accounts(user);
    accounts[2].is_signer = false;
    accounts.pop();
    assert_eq!(
        entry(&id(), &mut ledger, &accounts, &increment_data(&user)),
        Err(ErrorCode::NotASigner)
    );
    accounts[2].is_signer = true;
    assert_eq!(
        entry(&id(), &mut ledger, &accounts, &increment_data(&user)),
        Err(ErrorCode::NotEnoughAccounts)
    );
    assert_eq!(count(&ledger), 0);
    let mut ledger = Ledger::new();
    fund(&mut ledger, &user, 10_000_000);
    let mut accounts = create_accounts(user);
    accounts[1].is_signer = false;
    accounts.pop();
    assert_eq!(entry(&id(), &mut ledger, &accounts, &create_data()), Err(ErrorCode::NotASigner));
    accounts[1].is_signer = true;
    assert_eq!(
        entry(&id(), &mut ledger, &accounts, &create_data()),
        Err(ErrorCode::NotEnoughAccounts)
    );
    assert!(!ledger.contains(&counter_address().0));
}

#[test]
fn records_are_missed_where_a_check_needs_them() {
    let user = wallet(7);
    let mut ledger = ledger_with_counter(user);
    for kept in 0..3 {
        let mut accounts = increment_accounts(user);
        accounts.truncate(kept);
        assert_eq!(
            entry(&id(), &mut ledger, &accounts, &increment_data(&user)),
            Err(ErrorCode::NotEnoughAccounts)
        );
    }
    let mut ledger = Ledger::new();
    fund(&mut ledger, &user, 10_000_000);
    for kept in 0..3 {
        let mut accounts = create_accounts(user);
        accounts.truncate(kept);
        assert_eq!(
            entry(&id(), &mut ledger, &accounts, &create_data()),
            Err(ErrorCode::NotEnoughAccounts)
        );
    }
    let mut accounts = create_accounts(user);
    accounts.truncate(1);
    accounts[0].key = wallet(99);
    assert_eq!(
        entry(&id(), &mut ledger, &accounts, &create_data()),
        Err(ErrorCode::InvalidDerivation)
    );
    let mut accounts = increment_accounts(user);
    accounts.truncate(3);
    accounts[1].key = wallet(99);
    accounts[2].is_signer = false;
    assert_eq!(
        entry(&id(), &mut ledger, &accounts, &increment_data(&user)),
        Err(ErrorCode::InvalidDerivation)
    );
}

#[test]
fn requester_at_the_counters_address_must_hold_the_whole_balance() {
    let (counter, _) = counter_address();
    let mut accounts = create_accounts(counter);
    accounts[1].is_writable = true;
    let mut ledger = Ledger::new();
    fund(&mut ledger, &counter, 1_009_199);
    assert_eq!(
        entry(&id(), &mut ledger, &accounts, &create_data()),
        Err(ErrorCode::InsufficientFunding)
    );
    assert_eq!(ledger.account(&counter).lamports, 1_009_199);
    assert!(!ledger.account(&counter).is_record());
    fund(&mut ledger, &counter, 504_600);
    assert_eq!(
        entry(&id(), &mut ledger, &accounts, &create_data()),
        Err(ErrorCode::InsufficientFunding)
    );
    fund(&mut ledger, &counter, 0);
    assert_eq!(
        entry(&id(), &mut ledger, &accounts, &create_data()),
        Err(ErrorCode::InsufficientFunding)
    );
    fund(&mut ledger, &counter, 1_009_200);
    assert_eq!(entry(&id(), &mut ledger, &accounts, &create_data()), Ok(()));
    assert_eq!(ledger.account(&counter).lamports, 1_009_200);
    assert_eq!(ledger.account(&counter).owner, id());
    assert_eq!(count(&ledger), 0);
}

#[test]
fn requester_cannot_name_itself_as_its_guard() {
    let user = wallet(7);
    let mut ledger = ledger_with_counter(user);
    let mut accounts = increment_accounts(user);
    accounts[1].key = user;
    assert_eq!(
        entry(&id(), &mut ledger, &accounts, &increment_data(&user)),
        Err(ErrorCode::InvalidDerivation)
    );
    assert_eq!(count(&ledger), 0);
}

#[test]
fn host_rent_decides_what_a_record_costs() {
    let user = wallet(7);
    let rent = RentExemption { counter: 5_000, has_incremented: 3_000 };
    let mut ledger = Ledger::new();
    fund(&mut ledger, &user, 7_999);
    assert_eq!(
        increment_once::increment_once::entry(
            &id(),
            &mut ledger,
            &create_accounts(user),
            &create_data(),
            &rent
        ),
        Ok(())
    );
    assert_eq!(ledger.account(&counter_address().0).lamports, 5_000);
    assert_eq!(ledger.account(&user).lamports, 2_999);
    assert_eq!(
        increment_once::increment_once::entry(
            &id(),
            &mut ledger,
            &increment_accounts(user),
            &increment_data(&user),
            &rent
        ),
        Err(ErrorCode::InsufficientFunding)
    );
    fund(&mut ledger, &user, 3_000);
    assert_eq!(
        increment_once::increment_once::entry(
            &id(),
            &mut ledger,
            &increment_accounts(user),
            &increment_data(&user),
            &rent
        ),
        Ok(())
    );
    assert_eq!(ledger.account(&guard_address(&user).0).lamports, 3_000);
    assert_eq!(ledger.account(&user).lamports, 0);
    assert_eq!(count(&ledger), 1);
    let free = RentExemption { counter: 0, has_incremented: 0 };
    let other = wallet(9);
    assert_eq!(
        increment_once::increment_once::entry(
            &id(),
            &mut ledger,
            &increment_accounts(other),
            &increment_data(&other),
            &free
        ),
        Ok(())
    );
    assert_eq!(ledger.account(&guard_address(&other).0).lamports, 0);
    assert!(ledger.account(&guard_address(&other).0).is_record());
    assert_eq!(count(&ledger), 2);
}

#[test]
fn too_few_records_are_refused() {
    let user = wallet(7);
    let mut ledger = ledger_with_counter(user);
    let mut accounts = create_accounts(user);
    accounts.pop();
    assert_eq!(
        entry(&id(), &mut ledger, &accounts, &create_data()),
        Err(ErrorCode::NotEnoughAccounts)
    );
    let mut accounts = increment_accounts(user);
    accounts.pop();
    assert_eq!(
        entry(&id(), &mut ledger, &accounts, &increment_data(&user)),
        Err(ErrorCode::NotEnoughAccounts)
    );
}

#[test]
fn requester_must_sign() {
    let user = wallet(7);
    let mut ledger = Ledger::new();
    fund(&mut ledger, &user, 10_000_000);
    let mut accounts = create_accounts(user);
    accounts[1].is_signer = false;
    assert_eq!(entry(&id(), &mut ledger, &accounts, &create_data()), Err(ErrorCode::NotASigner));
    let mut ledger = ledger_with_counter(user);
    let mut accounts = increment_accounts(user);
    accounts[2].is_signer = false;
    assert_eq!(
        entry(&id(), &mut ledger, &accounts, &increment_data(&user)),
        Err(ErrorCode::NotASigner)
    );
}

#[test]
fn service_must_be_the_service() {
    let user = wallet(7);
    let mut ledger = Ledger::new();
    fund(&mut ledger, &user, 10_000_000);
    let mut accounts = create_accounts(user);
    accounts[2].key = wallet(1);
    assert_eq!(
        entry(&id(), &mut ledger, &accounts, &create_data()),
        Err(ErrorCode::InvalidProgramId)
    );
    let mut ledger = ledger_with_counter(user);
    let mut accounts = increment_accounts(user);
    accounts[3].key = id();
    assert_eq!(
        entry(&id(), &mut ledger, &accounts, &increment_data(&user)),
        Err(ErrorCode::InvalidProgramId)
    );
}

#[test]
fn changed_records_must_be_writable() {
    let user = wallet(7);
    let mut ledger = Ledger::new();
    fund(&mut ledger, &user, 10_000_000);
    let mut accounts = create_accounts(user);
    accounts[0].is_writable = false;
    assert_eq!(entry(&id(), &mut ledger, &accounts, &create_data()), Err(ErrorCode::NotWritable));
    let mut ledger = ledger_with_counter(user);
    for position in 0..3 {
        let mut accounts = increment_accounts(user);
        accounts[position].is_writable = false;
        assert_eq!(
            entry(&id(), &mut ledger, &accounts, &increment_data(&user)),
            Err(ErrorCode::NotWritable)
        );
    }
    assert_eq!(count(&ledger), 0);
}

#[test]
fn payer_must_cover_the_record() {
    let user = wallet(7);
    let mut ledger = Ledger::new();
    fund(&mut ledger, &user, 1_009_199);
    assert_eq!(
        entry(&id(), &mut ledger, &create_accounts(user), &create_data()),
        Err(ErrorCode::InsufficientFunding)
    );
    fund(&mut ledger, &user, 1_009_200);
    assert_eq!(entry(&id(), &mut ledger, &create_accounts(user), &create_data()), Ok(()));
    assert_eq!(ledger.account(&user).lamports, 0);
    assert_eq!(
        entry(&id(), &mut ledger, &increment_accounts(user), &increment_data(&user)),
        Err(ErrorCode::InsufficientFunding)
    );
    assert_eq!(count(&ledger), 0);
    assert!(!ledger.contains(&guard_address(&user).0));
}

#[test]
fn payer_tops_up_a_funded_address() {
    let user = wallet(7);
    let mut ledger = Ledger::new();
    fund(&mut ledger, &user, 1_000_000);
    fund(&mut ledger, &counter_address().0, 9_200);
    assert_eq!(entry(&id(), &mut ledger, &create_accounts(user), &create_data()), Ok(()));
    assert_eq!(ledger.account(&user).lamports, 0);
    assert_eq!(ledger.account(&counter_address().0).lamports, 1_009_200);
}

#[test]
fn overfunded_address_costs_the_payer_nothing() {
    let user = wallet(7);
    let mut ledger = Ledger::new();
    fund(&mut ledger, &counter_address().0, 5_000_000);
    assert_eq!(entry(&id(), &mut ledger, &create_accounts(user), &create_data()), Ok(()));
    assert_eq!(ledger.account(&user).lamports, 0);
    assert_eq!(ledger.account(&counter_address().0).lamports, 5_000_000);
    assert_eq!(count(&ledger), 0);
}

#[test]
fn full_counter_overflows() {
    let user = wallet(7);
    let mut ledger = Ledger::new();
    fund(&mut ledger, &user, 10_000_000);
    let (counter, bump) = counter_address();
    let mut data: Vec<u8> = Vec::new();
    assert_eq!(Counter { count: u64::MAX, bump }.try_serialize(&mut data), Ok(()));
    ledger.set_account(counter, Account { lamports: 1_009_200, owner: id(), data });
    assert_eq!(
        entry(&id(), &mut ledger, &increment_accounts(user), &increment_data(&user)),
        Err(ErrorCode::Overflow)
    );
    assert_eq!(count(&ledger), u64::MAX);
    assert!(!ledger.contains(&guard_address(&user).0));
    assert_eq!(ledger.account(&user).lamports, 10_000_000);
}

#[test]
fn counter_of_another_kind_is_refused() {
    let user = wallet(7);
    let mut ledger = Ledger::new();
    fund(&mut ledger, &user, 10_000_000);
    let (counter, _) = counter_address();
    let accounts = increment_accounts(user);
    let data = increment_data(&user);
    ledger.set_account(counter, Account { lamports: 1, owner: id(), data: vec![1, 2, 3] });
    assert_eq!(
        entry(&id(), &mut ledger, &accounts, &data),
        Err(ErrorCode::AccountDiscriminatorNotFound)
    );
    let guard = vec![56, 222, 56, 247, 106, 17, 240, 42, 1];
    ledger.set_account(counter, Account { lamports: 1, owner: id(), data: guard });
    assert_eq!(
        entry(&id(), &mut ledger, &accounts, &data),
        Err(ErrorCode::AccountDiscriminatorMismatch)
    );
    let short = vec![255, 176, 4, 245, 188, 253, 124, 25, 0, 0, 0];
    ledger.set_account(counter, Account { lamports: 1, owner: id(), data: short });
    assert_eq!(
        entry(&id(), &mut ledger, &accounts, &data),
        Err(ErrorCode::AccountDidNotDeserialize)
    );
}

#[test]
fn counter_of_another_owner_is_refused() {
    let user = wallet(7);
    let mut ledger = Ledger::new();
    fund(&mut ledger, &user, 10_000_000);
    let (counter, bump) = counter_address();
    let mut data: Vec<u8> = Vec::new();
    assert_eq!(Counter { count: 3, bump }.try_serialize(&mut data), Ok(()));
    ledger.set_account(counter, Account { lamports: 1_009_200, owner: wallet(3), data });
    assert_eq!(
        entry(&id(), &mut ledger, &increment_accounts(user), &increment_data(&user)),
        Err(ErrorCode::WrongOwner)
    );
}

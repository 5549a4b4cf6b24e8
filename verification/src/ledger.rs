//! The ledger: what is kept at each address.
//!
//! An address that nothing was stored at holds no lamports and no data and
//! belongs to the resource-allocation service. The programs read the ledger
//! while they check an instruction and write to it only once every check
//! has passed, so a refused instruction leaves it as it was.

use crate::account::{Account, AccountState};
use crate::address::Address;
use vstd::prelude::*;

verus! {

/// What the ledger keeps at the address: what was stored there, or what an
/// untouched address holds.
pub open spec fn account_at(s: Map<Seq<u8>, AccountState>, key: Seq<u8>) -> AccountState {
    if s.contains_key(key) {
        s[key]
    } else {
        AccountState::absent()
    }
}

/// Whether a record lives at the address.
pub open spec fn record_exists(s: Map<Seq<u8>, AccountState>, key: Seq<u8>) -> bool {
    account_at(s, key).is_record()
}

struct Entry {
    key: Address,
    account: Account,
}

/// A store of accounts by address.
pub struct Ledger {
    entries: Vec<Entry>,
}

spec fn distinct_keys(entries: Seq<Entry>) -> bool {
    forall|i: int, j: int|
        0 <= i < j < entries.len() ==> (#[trigger] entries[i]).key@ != (#[trigger] entries[j]).key@
}

spec fn holds_key(entries: Seq<Entry>, key: Seq<u8>, i: int) -> bool {
    0 <= i < entries.len() && entries[i].key@ == key
}

spec fn entries_map(entries: Seq<Entry>) -> Map<Seq<u8>, AccountState> {
    Map::new(
        |key: Seq<u8>| exists|i: int| holds_key(entries, key, i),
        |key: Seq<u8>| entries[choose|i: int| holds_key(entries, key, i)].account@,
    )
}

proof fn entry_is_mapped(entries: Seq<Entry>, i: int)
    requires
        distinct_keys(entries),
        0 <= i < entries.len(),
    ensures
        entries_map(entries).contains_key(entries[i].key@),
        entries_map(entries)[entries[i].key@] == entries[i].account@,
{
    let key = entries[i].key@;
    assert(holds_key(entries, key, i));
    let j = choose|j: int| holds_key(entries, key, j);
    if j < i {
        assert(entries[j].key@ != entries[i].key@);
    } else if i < j {
        assert(entries[i].key@ != entries[j].key@);
    }
}

proof fn replaced_entry_is_insert(old_entries: Seq<Entry>, i: int, entry: Entry)
    requires
        distinct_keys(old_entries),
        0 <= i < old_entries.len(),
        old_entries[i].key@ == entry.key@,
    ensures
        distinct_keys(old_entries.update(i, entry)),
        entries_map(old_entries.update(i, entry)) == entries_map(old_entries).insert(
            entry.key@,
            entry.account@,
        ),
{
    let new_entries = old_entries.update(i, entry);
    assert(distinct_keys(new_entries)) by {
        assert forall|a: int, b: int| 0 <= a < b < new_entries.len() implies (
        #[trigger] new_entries[a]).key@ != (#[trigger] new_entries[b]).key@ by {
            assert(old_entries[a].key@ != old_entries[b].key@);
        }
    }
    let lhs = entries_map(new_entries);
    let rhs = entries_map(old_entries).insert(entry.key@, entry.account@);
    assert forall|key: Seq<u8>| lhs.contains_key(key) <==> rhs.contains_key(key) by {
        if lhs.contains_key(key) {
            let j = choose|j: int| holds_key(new_entries, key, j);
            assert(holds_key(old_entries, old_entries[j].key@, j));
        }
        if rhs.contains_key(key) {
            if key == entry.key@ {
                assert(holds_key(new_entries, key, i));
            } else {
                let j = choose|j: int| holds_key(old_entries, key, j);
                assert(holds_key(new_entries, key, j));
            }
        }
    }
    assert forall|key: Seq<u8>| lhs.contains_key(key) implies lhs[key] == rhs[key] by {
        let j = choose|j: int| holds_key(new_entries, key, j);
        entry_is_mapped(new_entries, j);
        if j != i {
            entry_is_mapped(old_entries, j);
        }
    }
    assert(lhs =~= rhs);
}

proof fn pushed_entry_is_insert(old_entries: Seq<Entry>, entry: Entry)
    requires
        distinct_keys(old_entries),
        forall|i: int| !holds_key(old_entries, entry.key@, i),
    ensures
        distinct_keys(old_entries.push(entry)),
        entries_map(old_entries.push(entry)) == entries_map(old_entries).insert(
            entry.key@,
            entry.account@,
        ),
{
    let new_entries = old_entries.push(entry);
    let last = old_entries.len() as int;
    assert(distinct_keys(new_entries)) by {
        assert forall|a: int, b: int| 0 <= a < b < new_entries.len() implies (
        #[trigger] new_entries[a]).key@ != (#[trigger] new_entries[b]).key@ by {
            if b < last {
                assert(old_entries[a].key@ != old_entries[b].key@);
            } else {
                assert(!holds_key(old_entries, entry.key@, a));
            }
        }
    }
    let lhs = entries_map(new_entries);
    let rhs = entries_map(old_entries).insert(entry.key@, entry.account@);
    assert forall|key: Seq<u8>| lhs.contains_key(key) <==> rhs.contains_key(key) by {
        if lhs.contains_key(key) {
            let j = choose|j: int| holds_key(new_entries, key, j);
            if j < last {
                assert(holds_key(old_entries, key, j));
            }
        }
        if rhs.contains_key(key) {
            if key == entry.key@ {
                assert(holds_key(new_entries, key, last));
            } else {
                let j = choose|j: int| holds_key(old_entries, key, j);
                assert(holds_key(new_entries, key, j));
            }
        }
    }
    assert forall|key: Seq<u8>| lhs.contains_key(key) implies lhs[key] == rhs[key] by {
        let j = choose|j: int| holds_key(new_entries, key, j);
        entry_is_mapped(new_entries, j);
        if j < last {
            entry_is_mapped(old_entries, j);
        }
    }
    assert(lhs =~= rhs);
}

impl View for Ledger {
    type V = Map<Seq<u8>, AccountState>;

    closed spec fn view(&self) -> Map<Seq<u8>, AccountState> {
        entries_map(self.entries@)
    }
}

impl Ledger {
    #[verifier::type_invariant]
    spec fn well_formed(self) -> bool {
        distinct_keys(self.entries@)
    }

    /// A ledger that nothing was stored in.
    pub fn new() -> (ledger: Ledger)
        ensures
            ledger@ == Map::<Seq<u8>, AccountState>::empty(),
    {
        let ledger = Ledger { entries: Vec::new() };
        assert(ledger@ =~= Map::<Seq<u8>, AccountState>::empty());
        ledger
    }

    fn position(&self, key: &Address) -> (r: Option<usize>)
        ensures
            match r {
                Some(i) => holds_key(self.entries@, key@, i as int),
                None => forall|i: int| !holds_key(self.entries@, key@, i),
            },
    {
        let mut i: usize = 0;
        while i < self.entries.len()
            invariant
                i <= self.entries.len(),
                forall|j: int| 0 <= j < i ==> !holds_key(self.entries@, key@, j),
            decreases self.entries.len() - i,
        {
            if self.entries[i].key == *key {
                return Some(i);
            }
            i += 1;
        }
        None
    }

    /// Whether anything was stored at the address.
    pub fn contains(&self, key: &Address) -> (b: bool)
        ensures
            b == self@.contains_key(key@),
    {
        proof {
            use_type_invariant(self);
        }
        match self.position(key) {
            Some(i) => {
                proof {
                    entry_is_mapped(self.entries@, i as int);
                }
                true
            },
            None => false,
        }
    }

    /// A copy of what the ledger keeps at the address.
    pub fn account(&self, key: &Address) -> (a: Account)
        ensures
            a@ == account_at(self@, key@),
    {
        proof {
            use_type_invariant(self);
        }
        match self.position(key) {
            Some(i) => {
                proof {
                    entry_is_mapped(self.entries@, i as int);
                }
                self.entries[i].account.duplicate()
            },
            None => Account::absent(),
        }
    }

    /// Stores the account at the address, in place of what was there.
    pub fn set_account(&mut self, key: Address, account: Account)
        ensures
            final(self)@ == old(self)@.insert(key@, account@),
    {
        proof {
            use_type_invariant(&*self);
        }
        let found = self.position(&key);
        let mut entries: Vec<Entry> = Vec::new();
        std::mem::swap(&mut entries, &mut self.entries);
        let entry = Entry { key, account };
        match found {
            Some(i) => {
                proof {
                    replaced_entry_is_insert(entries@, i as int, entry);
                }
                entries.set(i, entry);
            },
            None => {
                proof {
                    pushed_entry_is_insert(entries@, entry);
                }
                entries.push(entry);
            },
        }
        self.entries = entries;
    }
}

} // verus!

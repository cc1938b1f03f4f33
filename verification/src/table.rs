//! The account table: every registered participant with their record, in
//! order of registration.

use vstd::prelude::*;
use vstd::std_specs::convert::FromSpec;
use crate::account::{Account, UpgradableAccount};
use crate::types::AccountId;

verus! {

/// One row of the table as a mathematical value: who, and their record in the
/// current layout.
pub struct Record {
    pub id: Seq<char>,
    pub account: Account,
}

/// Whether some row of `records` belongs to `id`.
pub open spec fn has_id(records: Seq<Record>, id: Seq<char>) -> bool {
    exists|i: int| 0 <= i < records.len() && (#[trigger] records[i]).id == id
}

/// The position of a row of `records` that belongs to `id`, if there is one.
pub open spec fn index_of(records: Seq<Record>, id: Seq<char>) -> int {
    choose|i: int| 0 <= i < records.len() && (#[trigger] records[i]).id == id
}

/// The record that `records` holds for `id`.
pub open spec fn lookup(records: Seq<Record>, id: Seq<char>) -> Option<Account> {
    if has_id(records, id) {
        Some(records[index_of(records, id)].account)
    } else {
        None
    }
}

/// `records` with `account` as the record of `id`: in place where `id` has a
/// row, in a new last row where it has none.
pub open spec fn put(records: Seq<Record>, id: Seq<char>, account: Account) -> Seq<Record> {
    if has_id(records, id) {
        records.update(index_of(records, id), Record { id, account })
    } else {
        records.push(Record { id, account })
    }
}

/// No two rows belong to the same participant.
pub open spec fn unique_ids(records: Seq<Record>) -> bool {
    forall|i: int, j: int|
        0 <= i < j < records.len() ==> (#[trigger] records[i]).id != (#[trigger] records[j]).id
}

/// The sum of the active stakes of all rows.
pub open spec fn total_stake(records: Seq<Record>) -> nat
    decreases records.len(),
{
    if records.len() == 0 {
        0
    } else {
        total_stake(records.drop_last()) + records.last().account.stake_balance as nat
    }
}

/// One for an account that holds an active stake, zero for one that holds
/// none.
pub open spec fn staker(account: Account) -> nat {
    if account.stake_balance > 0 {
        1
    } else {
        0
    }
}

/// The number of rows with a nonzero active stake.
pub open spec fn active_stakers(records: Seq<Record>) -> nat
    decreases records.len(),
{
    if records.len() == 0 {
        0
    } else {
        active_stakers(records.drop_last()) + staker(records.last().account)
    }
}

/// In a table without duplicates, a row that belongs to `id` is the row that
/// `index_of` finds.
pub proof fn lemma_index_of_unique(records: Seq<Record>, id: Seq<char>, i: int)
    requires
        unique_ids(records),
        0 <= i < records.len(),
        records[i].id == id,
    ensures
        has_id(records, id),
        index_of(records, id) == i,
        lookup(records, id) == Some(records[i].account),
{
    let k = index_of(records, id);
    assert(0 <= k < records.len() && records[k].id == id);
    if k < i {
        assert(records[k].id != records[i].id);
    } else if i < k {
        assert(records[i].id != records[k].id);
    }
}

/// What `put` does to a table without duplicates: the table stays without
/// duplicates, `id` gets `account`, and every other participant keeps what
/// they had.
pub proof fn lemma_put(records: Seq<Record>, id: Seq<char>, account: Account)
    requires
        unique_ids(records),
    ensures
        unique_ids(put(records, id, account)),
        lookup(put(records, id, account), id) == Some(account),
        forall|other: Seq<char>|
            other != id ==> lookup(put(records, id, account), other) == lookup(records, other),
        has_id(records, id) ==> put(records, id, account).len() == records.len(),
        !has_id(records, id) ==> put(records, id, account).len() == records.len() + 1,
{
    let after = put(records, id, account);
    let k = if has_id(records, id) {
        index_of(records, id)
    } else {
        records.len() as int
    };
    assert(0 <= k < after.len());
    assert(after[k] == Record { id, account });
    assert forall|i: int| 0 <= i < after.len() && i != k implies after[i] == records[i]
        && records[i].id != id by {
        if has_id(records, id) {
            if i < k {
                assert(records[i].id != records[k].id);
            } else {
                assert(records[k].id != records[i].id);
            }
        }
    }
    assert forall|i: int, j: int| 0 <= i < j < after.len() implies (#[trigger] after[i]).id != (
    #[trigger] after[j]).id by {
        if i != k && j != k {
            assert(records[i].id != records[j].id);
        }
    }
    lemma_index_of_unique(after, id, k);
    assert forall|other: Seq<char>| other != id implies lookup(after, other) == lookup(
        records,
        other,
    ) by {
        if has_id(records, other) {
            let m = index_of(records, other);
            assert(m != k);
            lemma_index_of_unique(after, other, m);
        } else if has_id(after, other) {
            let m = index_of(after, other);
            assert(m != k);
            assert(records[m].id == other);
        }
    }
}

/// Replacing one row changes the total stake by the difference of the two
/// stakes, and the number of active stakers by one where the row starts or
/// stops to hold a stake.
pub proof fn lemma_update_totals(records: Seq<Record>, i: int, row: Record)
    requires
        0 <= i < records.len(),
    ensures
        total_stake(records.update(i, row)) == total_stake(records)
            - records[i].account.stake_balance + row.account.stake_balance,
        active_stakers(records.update(i, row)) == active_stakers(records) - staker(
            records[i].account,
        ) + staker(row.account),
    decreases records.len(),
{
    let after = records.update(i, row);
    if i == records.len() - 1 {
        assert(after.drop_last() =~= records.drop_last());
    } else {
        assert(after.drop_last() =~= records.drop_last().update(i, row));
        lemma_update_totals(records.drop_last(), i, row);
    }
}

/// A new last row adds its stake to the total, and one to the number of
/// active stakers where it holds a stake.
pub proof fn lemma_push_totals(records: Seq<Record>, row: Record)
    ensures
        total_stake(records.push(row)) == total_stake(records) + row.account.stake_balance,
        active_stakers(records.push(row)) == active_stakers(records) + staker(row.account),
{
    assert(records.push(row).drop_last() =~= records);
}

/// No row holds more than the total stake, and a row that holds a stake is
/// counted among the active stakers.
pub proof fn lemma_totals_bound(records: Seq<Record>, i: int)
    requires
        0 <= i < records.len(),
    ensures
        records[i].account.stake_balance <= total_stake(records),
        staker(records[i].account) <= active_stakers(records),
    decreases records.len(),
{
    if i < records.len() - 1 {
        lemma_totals_bound(records.drop_last(), i);
    }
}

/// A stored row: the participant and their record in the layout it was
/// written in.
struct Entry {
    account_id: AccountId,
    account: UpgradableAccount,
}

/// The accounts of the ledger, keyed by participant. A participant has at most
/// one row, rows are never removed, and a row keeps its position for good.
pub struct AccountTable {
    entries: Vec<Entry>,
}

impl View for AccountTable {
    type V = Seq<Record>;

    closed spec fn view(&self) -> Seq<Record> {
        rows(self.entries@)
    }
}

/// The rows that `entries` stand for, each record read in the current layout.
spec fn rows(entries: Seq<Entry>) -> Seq<Record> {
    Seq::new(
        entries.len(),
        |i: int|
            Record {
                id: entries[i].account_id@,
                account: Account::from_spec(entries[i].account),
            },
    )
}

impl AccountTable {
    /// Every table is free of duplicates.
    #[verifier::type_invariant]
    pub open spec fn well_formed(&self) -> bool {
        unique_ids(self@)
    }

    /// Creates a table without rows.
    pub fn new() -> (table: Self)
        ensures
            table@ == Seq::<Record>::empty(),
    {
        let table = AccountTable { entries: Vec::new() };
        assert(table@ =~= Seq::<Record>::empty());
        table
    }

    /// Returns the number of rows.
    pub fn len(&self) -> (n: usize)
        ensures
            n == self@.len(),
            unique_ids(self@),
    {
        proof {
            use_type_invariant(self);
        }
        self.entries.len()
    }

    /// Returns the position of the row of `account_id`, if it has one.
    pub fn position(&self, account_id: &AccountId) -> (found: Option<usize>)
        ensures
            unique_ids(self@),
            match found {
                Some(i) => has_id(self@, account_id@) && i == index_of(self@, account_id@) && i
                    < self@.len(),
                None => !has_id(self@, account_id@),
            },
    {
        proof {
            use_type_invariant(self);
        }
        let mut i: usize = 0;
        while i < self.entries.len()
            invariant
                0 <= i <= self.entries.len(),
                unique_ids(self@),
                forall|j: int| 0 <= j < i ==> (#[trigger] self@[j]).id != account_id@,
            decreases self.entries.len() - i,
        {
            if self.entries[i].account_id == *account_id {
                proof {
                    lemma_index_of_unique(self@, account_id@, i as int);
                }
                return Some(i);
            }
            i += 1;
        }
        None
    }

    /// Returns the stored record of `account_id`, if it has one.
    pub fn get(&self, account_id: &AccountId) -> (stored: Option<UpgradableAccount>)
        ensures
            unique_ids(self@),
            lookup(self@, account_id@) == match stored {
                Some(stored) => Some(Account::from_spec(stored)),
                None => None,
            },
    {
        match self.position(account_id) {
            Some(i) => Some(self.entries[i].account),
            None => None,
        }
    }

    /// Stores `account` as the record of `account_id` and returns the record
    /// it replaces, if any. A participant without a row gets a new last row.
    pub fn insert(
        &mut self,
        account_id: &AccountId,
        account: &UpgradableAccount,
    ) -> (previous: Option<UpgradableAccount>)
        ensures
            final(self)@ == put(old(self)@, account_id@, Account::from_spec(*account)),
            unique_ids(old(self)@),
            unique_ids(final(self)@),
            lookup(old(self)@, account_id@) == match previous {
                Some(previous) => Some(Account::from_spec(previous)),
                None => None,
            },
    {
        proof {
            use_type_invariant(&*self);
            lemma_put(self@, account_id@, Account::from_spec(*account));
        }
        let found = self.position(account_id);
        let ghost before = self@;
        let mut entries: Vec<Entry> = Vec::new();
        std::mem::swap(&mut entries, &mut self.entries);
        let previous = match found {
            Some(i) => {
                let previous = entries[i].account;
                entries[i].account = *account;
                Some(previous)
            },
            None => {
                entries.push(Entry { account_id: account_id.clone(), account: *account });
                None
            },
        };
        assert(rows(entries@) =~= put(before, account_id@, Account::from_spec(*account)));
        self.entries = entries;
        previous
    }

    /// Returns the participant and the record of row `index`, if there is
    /// such a row.
    pub fn entry_at(&self, index: usize) -> (entry: Option<(&AccountId, Account)>)
        ensures
            unique_ids(self@),
            match entry {
                Some((account_id, account)) => index < self@.len() && account_id@
                    == self@[index as int].id && account == self@[index as int].account,
                None => index >= self@.len(),
            },
    {
        proof {
            use_type_invariant(self);
        }
        if index < self.entries.len() {
            Some((&self.entries[index].account_id, Account::from(self.entries[index].account)))
        } else {
            None
        }
    }

    /// Stores `account` as the record of row `index` and says whether there is
    /// such a row. The row keeps its participant.
    pub fn replace_at(&mut self, index: usize, account: Account) -> (replaced: bool)
        ensures
            replaced == (index < old(self)@.len()),
            replaced ==> final(self)@ == old(self)@.update(
                index as int,
                Record { id: old(self)@[index as int].id, account },
            ),
            !replaced ==> final(self)@ == old(self)@,
            unique_ids(final(self)@),
    {
        proof {
            use_type_invariant(&*self);
        }
        if index >= self.entries.len() {
            return false;
        }
        let ghost before = self@;
        let mut entries: Vec<Entry> = Vec::new();
        std::mem::swap(&mut entries, &mut self.entries);
        entries[index].account = UpgradableAccount::from(account);
        proof {
            let after = before.update(
                index as int,
                Record { id: before[index as int].id, account },
            );
            assert forall|i: int, j: int| 0 <= i < j < after.len() implies (#[trigger] after[i]).id
                != (#[trigger] after[j]).id by {
                assert(before[i].id != before[j].id);
            }
            assert(rows(entries@) =~= after);
        }
        self.entries = entries;
        true
    }
}

} // verus!

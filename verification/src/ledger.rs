//! A ledger of balances by account.

use vstd::prelude::*;

verus! {

/// One account with the balance recorded for it.
#[derive(Clone, Debug, PartialEq, Eq)]
pub struct LedgerEntry {
    pub account: String,
    pub amount: u128,
}

/// Balances by account. An account that was never credited has balance zero.
#[derive(Clone, Debug, PartialEq, Eq)]
pub struct Ledger {
    pub entries: Vec<LedgerEntry>,
}

/// Whether some entry of `entries` is for `account`.
pub open spec fn has_entry(entries: Seq<LedgerEntry>, account: Seq<char>) -> bool {
    exists|i: int| 0 <= i < entries.len() && (#[trigger] entries[i]).account@ == account
}

/// The place of an entry for `account`, where there is one.
pub open spec fn entry_index(entries: Seq<LedgerEntry>, account: Seq<char>) -> int {
    choose|i: int| 0 <= i < entries.len() && (#[trigger] entries[i]).account@ == account
}

/// No account has two entries.
pub open spec fn distinct_accounts(entries: Seq<LedgerEntry>) -> bool {
    forall|i: int, j: int|
        0 <= i < j < entries.len() ==> (#[trigger] entries[i]).account@ != (
        #[trigger] entries[j]).account@
}

/// The sum of all recorded balances.
pub open spec fn sum_of(entries: Seq<LedgerEntry>) -> nat
    decreases entries.len(),
{
    if entries.len() == 0 {
        0
    } else {
        sum_of(entries.drop_last()) + entries.last().amount as nat
    }
}

/// The balance that a map of balances holds for `account`: zero where it
/// holds none.
pub open spec fn balance_in(balances: Map<Seq<char>, nat>, account: Seq<char>) -> nat {
    if balances.dom().contains(account) {
        balances[account]
    } else {
        0
    }
}

/// The map of balances after `amount` was added to the balance of `account`.
pub open spec fn credited(balances: Map<Seq<char>, nat>, account: Seq<char>, amount: nat) -> Map<
    Seq<char>,
    nat,
> {
    balances.insert(account, balance_in(balances, account) + amount)
}

proof fn lemma_sum_push(entries: Seq<LedgerEntry>, entry: LedgerEntry)
    ensures
        sum_of(entries.push(entry)) == sum_of(entries) + entry.amount,
{
    assert(entries.push(entry).drop_last() =~= entries);
}

proof fn lemma_sum_update(entries: Seq<LedgerEntry>, i: int, entry: LedgerEntry)
    requires
        0 <= i < entries.len(),
    ensures
        sum_of(entries.update(i, entry)) + entries[i].amount == sum_of(entries) + entry.amount,
    decreases entries.len(),
{
    let updated = entries.update(i, entry);
    if i == entries.len() - 1 {
        assert(updated.drop_last() =~= entries.drop_last());
    } else {
        lemma_sum_update(entries.drop_last(), i, entry);
        assert(updated.drop_last() =~= entries.drop_last().update(i, entry));
    }
}

proof fn lemma_sum_prefix(entries: Seq<LedgerEntry>, n: int)
    requires
        0 <= n <= entries.len(),
    ensures
        sum_of(entries.take(n)) <= sum_of(entries),
    decreases entries.len(),
{
    if n == entries.len() {
        assert(entries.take(n) =~= entries);
    } else {
        lemma_sum_prefix(entries.drop_last(), n);
        assert(entries.drop_last().take(n) =~= entries.take(n));
    }
}

proof fn lemma_entry_at_most_sum(entries: Seq<LedgerEntry>, i: int)
    requires
        0 <= i < entries.len(),
    ensures
        entries[i].amount <= sum_of(entries),
    decreases entries.len(),
{
    if i < entries.len() - 1 {
        lemma_entry_at_most_sum(entries.drop_last(), i);
    }
}

/// The balances that `entries` record, as a map: its domain holds the
/// accounts with an entry.
pub open spec fn balances_of(entries: Seq<LedgerEntry>) -> Map<Seq<char>, nat> {
    Map::new(
        |account: Seq<char>| has_entry(entries, account),
        |account: Seq<char>| entries[entry_index(entries, account)].amount as nat,
    )
}

proof fn lemma_view_push(entries: Seq<LedgerEntry>, entry: LedgerEntry)
    requires
        distinct_accounts(entries),
        !has_entry(entries, entry.account@),
    ensures
        distinct_accounts(entries.push(entry)),
        balances_of(entries.push(entry)) == credited(
            balances_of(entries),
            entry.account@,
            entry.amount as nat,
        ),
{
    let pushed = entries.push(entry);
    let last = entries.len() as int;
    assert(pushed[last] == entry);
    assert forall|i: int, j: int| 0 <= i < j < pushed.len() implies (#[trigger] pushed[i]).account@
        != (#[trigger] pushed[j]).account@ by {
        assert(pushed[i] == entries[i]);
        if j < last {
            assert(pushed[j] == entries[j]);
        }
    }
    assert forall|account: Seq<char>|
        has_entry(pushed, account) == (has_entry(entries, account) || account
            == entry.account@) by {
        if has_entry(entries, account) {
            let i = entry_index(entries, account);
            assert(pushed[i] == entries[i]);
        }
        if has_entry(pushed, account) && account != entry.account@ {
            let i = entry_index(pushed, account);
            assert(pushed[i] == entries[i]);
        }
    }
    assert forall|account: Seq<char>| has_entry(pushed, account) implies pushed[entry_index(
        pushed,
        account,
    )].amount as nat == credited(
        balances_of(entries),
        entry.account@,
        entry.amount as nat,
    )[account] by {
        let i = entry_index(pushed, account);
        if account != entry.account@ {
            let k = entry_index(entries, account);
            assert(pushed[k] == entries[k]);
            assert(i == k);
        }
    }
    assert(balances_of(pushed) =~= credited(
        balances_of(entries),
        entry.account@,
        entry.amount as nat,
    ));
}

proof fn lemma_view_update(entries: Seq<LedgerEntry>, i: int, entry: LedgerEntry)
    requires
        distinct_accounts(entries),
        0 <= i < entries.len(),
        entries[i].account@ == entry.account@,
    ensures
        distinct_accounts(entries.update(i, entry)),
        has_entry(entries, entry.account@),
        balances_of(entries)[entry.account@] == entries[i].amount,
        balances_of(entries.update(i, entry)) == balances_of(entries).insert(
            entry.account@,
            entry.amount as nat,
        ),
{
    let updated = entries.update(i, entry);
    assert(entries[i].account@ == entry.account@);
    assert(entry_index(entries, entry.account@) == i) by {
        let k = entry_index(entries, entry.account@);
        if k != i {
            if k < i {
                assert(entries[k].account@ != entries[i].account@);
            } else {
                assert(entries[i].account@ != entries[k].account@);
            }
        }
    }
    assert forall|a: int| 0 <= a < updated.len() implies (#[trigger] updated[a]).account@
        == entries[a].account@ by {}
    assert forall|a: int, b: int| 0 <= a < b < updated.len() implies (#[trigger] updated[a]).account@
        != (#[trigger] updated[b]).account@ by {
        assert(entries[a].account@ != entries[b].account@);
    }
    assert forall|account: Seq<char>| has_entry(updated, account) == has_entry(
        entries,
        account,
    ) by {
        if has_entry(entries, account) {
            let k = entry_index(entries, account);
            assert(updated[k].account@ == account);
        }
        if has_entry(updated, account) {
            let k = entry_index(updated, account);
            assert(entries[k].account@ == account);
        }
    }
    assert forall|account: Seq<char>| has_entry(updated, account) implies updated[entry_index(
        updated,
        account,
    )].amount as nat == balances_of(entries).insert(entry.account@, entry.amount as nat)[account] by {
        let k = entry_index(updated, account);
        assert(entries[k].account@ == account);
        let m = entry_index(entries, account);
        if k != m {
            if k < m {
                assert(entries[k].account@ != entries[m].account@);
            } else {
                assert(entries[m].account@ != entries[k].account@);
            }
        }
    }
    assert(balances_of(updated) =~= balances_of(entries).insert(
        entry.account@,
        entry.amount as nat,
    ));
}

impl View for Ledger {
    type V = Map<Seq<char>, nat>;

    open spec fn view(&self) -> Map<Seq<char>, nat> {
        balances_of(self.entries@)
    }
}

impl Ledger {
    /// A ledger is well formed when no account has two entries.
    pub open spec fn wf(&self) -> bool {
        distinct_accounts(self.entries@)
    }

    /// The sum of all balances of the ledger.
    pub open spec fn total(&self) -> nat {
        sum_of(self.entries@)
    }

    /// The balance of `account`.
    pub open spec fn balance(&self, account: Seq<char>) -> nat {
        balance_in(self@, account)
    }

    /// No balance of a ledger is above the sum of all of them.
    pub proof fn lemma_balance_at_most_total(&self, account: Seq<char>)
        ensures
            self.balance(account) <= self.total(),
    {
        if has_entry(self.entries@, account) {
            lemma_entry_at_most_sum(self.entries@, entry_index(self.entries@, account));
        }
    }

    /// The empty ledger.
    pub fn new() -> (ledger: Ledger)
        ensures
            ledger.wf(),
            ledger@ == Map::<Seq<char>, nat>::empty(),
            ledger.total() == 0,
    {
        let ledger = Ledger { entries: Vec::new() };
        assert(ledger@ =~= Map::<Seq<char>, nat>::empty());
        ledger
    }

    /// The place of the entry for `account`, if it has one.
    fn position(&self, account: &String) -> (found: Option<usize>)
        ensures
            match found {
                Some(i) => i < self.entries@.len() && self.entries@[i as int].account@
                    == account@,
                None => !has_entry(self.entries@, account@),
            },
    {
        let mut i: usize = 0;
        while i < self.entries.len()
            invariant
                i <= self.entries@.len(),
                forall|j: int| 0 <= j < i ==> (#[trigger] self.entries@[j]).account@ != account@,
            decreases self.entries@.len() - i,
        {
            if self.entries[i].account == *account {
                return Some(i);
            }
            i += 1;
        }
        None
    }

    /// The balance of `account`: zero where it was never credited.
    pub fn get(&self, account: &String) -> (amount: u128)
        requires
            self.wf(),
        ensures
            amount == self.balance(account@),
    {
        match self.position(account) {
            Some(i) => self.entries[i].amount,
            None => 0,
        }
    }

    /// Adds `amount` to the balance of `account`. Where the new balance
    /// would not fit, nothing changes and `false` is returned.
    pub fn credit(&mut self, account: &String, amount: u128) -> (done: bool)
        requires
            old(self).wf(),
        ensures
            final(self).wf(),
            done == (old(self).balance(account@) + amount <= u128::MAX),
            done ==> final(self)@ == credited(old(self)@, account@, amount as nat),
            done ==> final(self).total() == old(self).total() + amount,
            !done ==> *final(self) == *old(self),
    {
        match self.position(account) {
            Some(i) => {
                match self.entries[i].amount.checked_add(amount) {
                    Some(sum) => {
                        let entry = LedgerEntry { account: account.clone(), amount: sum };
                        proof {
                            lemma_sum_update(self.entries@, i as int, entry);
                        }
                        self.entries.set(i, entry);
                        proof {
                            lemma_view_update(old(self).entries@, i as int, entry);
                        }
                        true
                    },
                    None => false,
                }
            },
            None => {
                let entry = LedgerEntry { account: account.clone(), amount };
                proof {
                    lemma_sum_push(self.entries@, entry);
                }
                self.entries.push(entry);
                proof {
                    lemma_view_push(old(self).entries@, entry);
                }
                true
            },
        }
    }

    /// The sum of all balances, where it fits.
    pub fn checked_total(&self) -> (total: Option<u128>)
        ensures
            match total {
                Some(sum) => sum == self.total(),
                None => self.total() > u128::MAX,
            },
    {
        let mut sum: u128 = 0;
        let mut i: usize = 0;
        while i < self.entries.len()
            invariant
                i <= self.entries@.len(),
                sum == sum_of(self.entries@.take(i as int)),
            decreases self.entries@.len() - i,
        {
            proof {
                assert(self.entries@.take(i + 1).drop_last() =~= self.entries@.take(i as int));
                lemma_sum_prefix(self.entries@, i + 1);
            }
            match sum.checked_add(self.entries[i].amount) {
                Some(next) => {
                    sum = next;
                },
                None => {
                    return None;
                },
            }
            i += 1;
        }
        assert(self.entries@.take(i as int) =~= self.entries@);
        Some(sum)
    }

    /// Whether no account has two entries.
    pub fn is_well_formed(&self) -> (ok: bool)
        ensures
            ok == self.wf(),
    {
        let mut j: usize = 0;
        while j < self.entries.len()
            invariant
                j <= self.entries@.len(),
                forall|a: int, b: int|
                    0 <= a < b < j ==> (#[trigger] self.entries@[a]).account@ != (
                    #[trigger] self.entries@[b]).account@,
            decreases self.entries@.len() - j,
        {
            let mut i: usize = 0;
            while i < j
                invariant
                    i <= j < self.entries@.len(),
                    forall|a: int|
                        0 <= a < i ==> (#[trigger] self.entries@[a]).account@
                            != self.entries@[j as int].account@,
                decreases j - i,
            {
                if self.entries[i].account == self.entries[j].account {
                    return false;
                }
                i += 1;
            }
            j += 1;
        }
        true
    }
}

} // verus!

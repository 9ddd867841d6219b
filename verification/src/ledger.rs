//! The stake ledger: how much each account has staked through the contract.
//!
//! The ledger is a table from account to balance. An account without an entry
//! has staked nothing, and no entry ever holds a balance of zero: storing zero
//! removes the entry. Contracts speak of the ledger through its view, a
//! `Map<AccountId, Balance>`.

use crate::account::{AccountId, Balance};
use vstd::prelude::*;

verus! {

/// One row of the ledger: an account and what it has staked.
struct StakeEntry {
    account: AccountId,
    balance: Balance,
}

/// A credit would take the balance over the largest representable amount.
#[derive(Clone, Copy, Debug, PartialEq, Eq)]
pub struct Overflow;

/// A debit asks for more than the account has staked.
#[derive(Clone, Copy, Debug, PartialEq, Eq)]
pub struct Underflow;

/// The entry of `account` in `stakes`, if it has one.
pub open spec fn lookup(stakes: Map<AccountId, Balance>, account: AccountId) -> Option<Balance> {
    if stakes.dom().contains(account) {
        Some(stakes[account])
    } else {
        None
    }
}

/// What `account` has staked: the balance of its entry, or zero without one.
pub open spec fn stake_of(stakes: Map<AccountId, Balance>, account: AccountId) -> Balance {
    if stakes.dom().contains(account) {
        stakes[account]
    } else {
        0
    }
}

/// The table after `balance` is stored for `account`: a balance of zero
/// removes the entry, any other balance replaces or creates it.
pub open spec fn stored(
    stakes: Map<AccountId, Balance>,
    account: AccountId,
    balance: Balance,
) -> Map<AccountId, Balance> {
    if balance == 0 {
        stakes.remove(account)
    } else {
        stakes.insert(account, balance)
    }
}

/// No entry of `stakes` holds a balance of zero.
pub open spec fn no_zero_entry(stakes: Map<AccountId, Balance>) -> bool {
    forall|account: AccountId| stakes.dom().contains(account) ==> stakes[account] != 0
}

/// The row that holds `balance` for `account`.
spec fn row(account: AccountId, balance: Balance) -> StakeEntry {
    StakeEntry { account, balance }
}

/// No account occurs in two rows.
spec fn distinct_accounts(rows: Seq<StakeEntry>) -> bool {
    forall|i: int, j: int| 0 <= i < j < rows.len() ==> rows[i].account != rows[j].account
}

/// No row holds a balance of zero.
spec fn nonzero_balances(rows: Seq<StakeEntry>) -> bool {
    forall|i: int| 0 <= i < rows.len() ==> rows[i].balance != 0
}

/// Some row of `rows` belongs to `account`.
spec fn has_row(rows: Seq<StakeEntry>, account: AccountId) -> bool {
    exists|i: int| 0 <= i < rows.len() && rows[i].account == account
}

/// The table that `rows` stands for.
spec fn table_of(rows: Seq<StakeEntry>) -> Map<AccountId, Balance> {
    Map::new(
        |account: AccountId| has_row(rows, account),
        |account: AccountId|
            rows[choose|i: int| 0 <= i < rows.len() && rows[i].account == account].balance,
    )
}

/// Row `i` is the entry of its account in the table.
proof fn lemma_row_in_table(rows: Seq<StakeEntry>, i: int)
    requires
        distinct_accounts(rows),
        0 <= i < rows.len(),
    ensures
        table_of(rows).dom().contains(rows[i].account),
        table_of(rows)[rows[i].account] == rows[i].balance,
{
    assert(has_row(rows, rows[i].account));
}

/// The staked balance of every account that has one.
pub struct StakeLedger {
    rows: Vec<StakeEntry>,
}

impl View for StakeLedger {
    type V = Map<AccountId, Balance>;

    closed spec fn view(&self) -> Map<AccountId, Balance> {
        table_of(self.rows@)
    }
}

impl StakeLedger {
    #[verifier::type_invariant]
    spec fn well_formed(self) -> bool {
        distinct_accounts(self.rows@) && nonzero_balances(self.rows@)
    }

    /// The ledger in which nobody has staked.
    pub fn new() -> (ledger: Self)
        ensures
            ledger@ == Map::<AccountId, Balance>::empty(),
    {
        let ledger = StakeLedger { rows: Vec::new() };
        assert(ledger@ =~= Map::<AccountId, Balance>::empty());
        ledger
    }

    /// The number of accounts that have an entry.
    pub fn len(&self) -> (count: usize)
        ensures
            self@.dom().finite(),
            count == self@.dom().len(),
    {
        proof {
            use_type_invariant(self);
            lemma_table_size(self.rows@);
        }
        self.rows.len()
    }

    /// The row of `account`, if there is one.
    fn position(&self, account: &AccountId) -> (at: Option<usize>)
        ensures
            at matches Some(i) ==> i < self.rows@.len() && self.rows@[i as int].account
                == *account,
            at is None ==> !has_row(self.rows@, *account),
    {
        let mut i: usize = 0;
        while i < self.rows.len()
            invariant
                i <= self.rows@.len(),
                forall|j: int| 0 <= j < i ==> self.rows@[j].account != *account,
            decreases self.rows@.len() - i,
        {
            if self.rows[i].account == *account {
                return Some(i);
            }
            i += 1;
        }
        None
    }

    /// What is tracked for `account`: its balance, or nothing if it has no
    /// entry. A balance that is returned is never zero.
    pub fn get(&self, account: AccountId) -> (found: Option<Balance>)
        ensures
            found == lookup(self@, account),
            found != Some(0u128),
            no_zero_entry(self@),
    {
        proof {
            use_type_invariant(self);
            lemma_table_nonzero(self.rows@);
        }
        match self.position(&account) {
            Some(i) => {
                proof {
                    lemma_row_in_table(self.rows@, i as int);
                }
                Some(self.rows[i].balance)
            },
            None => None,
        }
    }

    /// The balance that `account` would have after `amount` is added to its
    /// stake. Nothing is written. Fails exactly when the sum does not fit the
    /// balance type.
    pub fn credit(&self, account: AccountId, amount: Balance) -> (total: Result<Balance, Overflow>)
        ensures
            stake_of(self@, account) + amount <= Balance::MAX ==> total == Ok::<Balance, Overflow>(
                (stake_of(self@, account) + amount) as Balance,
            ),
            stake_of(self@, account) + amount > Balance::MAX ==> total == Err::<Balance, Overflow>(
                Overflow,
            ),
            no_zero_entry(self@),
    {
        let current = match self.get(account) {
            Some(balance) => balance,
            None => 0,
        };
        match current.checked_add(amount) {
            Some(sum) => Ok(sum),
            None => Err(Overflow),
        }
    }

    /// The balance that `account` would have after `amount` is taken from its
    /// stake. Nothing is written. Fails exactly when `amount` is more than the
    /// account has staked.
    pub fn debit(&self, account: AccountId, amount: Balance) -> (rest: Result<Balance, Underflow>)
        ensures
            amount <= stake_of(self@, account) ==> rest == Ok::<Balance, Underflow>(
                (stake_of(self@, account) - amount) as Balance,
            ),
            amount > stake_of(self@, account) ==> rest == Err::<Balance, Underflow>(Underflow),
            no_zero_entry(self@),
    {
        let current = match self.get(account) {
            Some(balance) => balance,
            None => 0,
        };
        match current.checked_sub(amount) {
            Some(difference) => Ok(difference),
            None => Err(Underflow),
        }
    }

    /// Writes `balance` as what `account` has staked: zero removes the entry,
    /// any other balance replaces or creates it. No other entry changes.
    pub fn store(&mut self, account: AccountId, balance: Balance)
        ensures
            final(self)@ == stored(old(self)@, account, balance),
            no_zero_entry(final(self)@),
    {
        proof {
            use_type_invariant(&*self);
        }
        let at = self.position(&account);
        let mut rows: Vec<StakeEntry> = Vec::new();
        core::mem::swap(&mut rows, &mut self.rows);
        let ghost before = rows@;
        match at {
            Some(i) => {
                if balance == 0 {
                    rows.swap_remove(i);
                    proof {
                        lemma_swap_remove(before, i as int);
                    }
                } else {
                    rows[i].balance = balance;
                    proof {
                        lemma_replace(before, i as int, balance);
                    }
                }
            },
            None => {
                if balance != 0 {
                    rows.push(StakeEntry { account, balance });
                    proof {
                        lemma_append(before, account, balance);
                    }
                } else {
                    assert(table_of(before).remove(account) =~= table_of(before));
                }
            },
        }
        proof {
            lemma_table_nonzero(rows@);
        }
        self.rows = rows;
    }
}

/// The table of rows with distinct accounts has one entry for each row.
proof fn lemma_table_size(rows: Seq<StakeEntry>)
    requires
        distinct_accounts(rows),
    ensures
        table_of(rows).dom().finite(),
        table_of(rows).dom().len() == rows.len(),
    decreases rows.len(),
{
    if rows.len() == 0 {
        assert(table_of(rows).dom() =~= Set::<AccountId>::empty());
    } else {
        let front = rows.drop_last();
        let last = rows.last().account;
        lemma_table_size(front);
        assert(!has_row(front, last)) by {
            if has_row(front, last) {
                let k = choose|k: int| 0 <= k < front.len() && front[k].account == last;
                assert(rows[k].account == rows[rows.len() - 1].account);
            }
        }
        assert forall|account: AccountId|
            has_row(rows, account) == (has_row(front, account) || account == last) by {
            if has_row(rows, account) {
                let k = choose|k: int| 0 <= k < rows.len() && rows[k].account == account;
                if k < front.len() {
                    assert(front[k].account == account);
                }
            }
            if has_row(front, account) {
                let k = choose|k: int| 0 <= k < front.len() && front[k].account == account;
                assert(rows[k].account == account);
            }
            if account == last {
                assert(rows[rows.len() - 1].account == account);
            }
        }
        assert(table_of(rows).dom() =~= table_of(front).dom().insert(last));
    }
}

/// Rows without a zero balance stand for a table without one.
proof fn lemma_table_nonzero(rows: Seq<StakeEntry>)
    requires
        distinct_accounts(rows),
        nonzero_balances(rows),
    ensures
        no_zero_entry(table_of(rows)),
{
    assert forall|account: AccountId| table_of(rows).dom().contains(account) implies table_of(
        rows,
    )[account] != 0 by {
        let k = choose|k: int| 0 <= k < rows.len() && rows[k].account == account;
        lemma_row_in_table(rows, k);
    }
}

/// Dropping the row of an account by moving the last row into its place
/// removes that account's entry and no other.
proof fn lemma_swap_remove(rows: Seq<StakeEntry>, i: int)
    requires
        distinct_accounts(rows),
        nonzero_balances(rows),
        0 <= i < rows.len(),
    ensures
        distinct_accounts(rows.update(i, rows.last()).drop_last()),
        nonzero_balances(rows.update(i, rows.last()).drop_last()),
        table_of(rows.update(i, rows.last()).drop_last()) == table_of(rows).remove(
            rows[i].account,
        ),
{
    let after = rows.update(i, rows.last()).drop_last();
    let last = rows.len() - 1;
    // Row `j` of `after` is row `j` of `rows`, but for `j == i`: that is the last row.
    assert forall|j: int| 0 <= j < after.len() implies table_of(rows).dom().contains(
        #[trigger] after[j].account,
    ) && table_of(rows)[after[j].account] == after[j].balance && after[j].account
        != rows[i].account by {
        lemma_row_in_table(rows, if j == i { last } else { j });
    }
    // Row `k` of `rows` is row `k` of `after`, but for the last: that is row `i`.
    assert forall|account: AccountId|
        has_row(rows, account) && account != rows[i].account implies has_row(after, account) by {
        let k = choose|k: int| 0 <= k < rows.len() && rows[k].account == account;
        assert(after[if k == last { i } else { k }].account == account);
    }
    assert(table_of(after) =~= table_of(rows).remove(rows[i].account));
}

/// Writing a new balance into the row of an account replaces that account's
/// entry and no other.
proof fn lemma_replace(rows: Seq<StakeEntry>, i: int, balance: Balance)
    requires
        distinct_accounts(rows),
        nonzero_balances(rows),
        0 <= i < rows.len(),
        balance != 0,
    ensures
        distinct_accounts(rows.update(i, row(rows[i].account, balance))),
        nonzero_balances(rows.update(i, row(rows[i].account, balance))),
        table_of(rows.update(i, row(rows[i].account, balance))) == table_of(rows).insert(
            rows[i].account,
            balance,
        ),
{
    let after = rows.update(i, row(rows[i].account, balance));
    // Row `j` of `after` has the account of row `j` of `rows`, and its balance
    // too, but for `j == i`.
    assert forall|j: int| 0 <= j < rows.len() implies table_of(after)[#[trigger] rows[j].account]
        == after[j].balance && table_of(rows)[rows[j].account] == rows[j].balance by {
        lemma_row_in_table(after, j);
        lemma_row_in_table(rows, j);
    }
    assert forall|account: AccountId| has_row(after, account) == has_row(rows, account) by {
        if has_row(after, account) {
            let k = choose|k: int| 0 <= k < after.len() && after[k].account == account;
            assert(rows[k].account == account);
        }
        if has_row(rows, account) {
            let k = choose|k: int| 0 <= k < rows.len() && rows[k].account == account;
            assert(after[k].account == account);
        }
    }
    assert(table_of(after) =~= table_of(rows).insert(rows[i].account, balance));
}

/// Adding a row for an account that has none creates that account's entry
/// and changes no other.
proof fn lemma_append(rows: Seq<StakeEntry>, account: AccountId, balance: Balance)
    requires
        distinct_accounts(rows),
        nonzero_balances(rows),
        !has_row(rows, account),
        balance != 0,
    ensures
        distinct_accounts(rows.push(row(account, balance))),
        nonzero_balances(rows.push(row(account, balance))),
        table_of(rows.push(row(account, balance))) == table_of(rows).insert(account, balance),
{
    let after = rows.push(row(account, balance));
    assert forall|j: int| 0 <= j < rows.len() implies rows[j].account != account by {
        assert(!has_row(rows, account));
    }
    // The rows of `after` are the rows of `rows` and, last, the new one.
    assert forall|j: int| 0 <= j < after.len() implies table_of(after)[#[trigger] after[j].account]
        == after[j].balance by {
        lemma_row_in_table(after, j);
    }
    assert forall|j: int| 0 <= j < rows.len() implies table_of(rows)[#[trigger] rows[j].account]
        == rows[j].balance by {
        lemma_row_in_table(rows, j);
    }
    assert forall|other: AccountId|
        has_row(after, other) == (has_row(rows, other) || other == account) by {
        if has_row(after, other) {
            let k = choose|k: int| 0 <= k < after.len() && after[k].account == other;
            if k < rows.len() {
                assert(rows[k].account == other);
            }
        }
        if has_row(rows, other) {
            let k = choose|k: int| 0 <= k < rows.len() && rows[k].account == other;
            assert(after[k].account == other);
        }
        if other == account {
            assert(after[rows.len() as int].account == other);
        }
    }
    assert(table_of(after) =~= table_of(rows).insert(account, balance));
}

} // verus!

use vstd::prelude::*;

verus! {

/// An opaque, comparable key naming a balance holder. Only equality matters;
/// no ordering semantics are attached to it.
pub type AccountId = u64;

/// A non-negative count of smallest-denomination units. The type is unsigned,
/// so a balance can never be negative.
pub type Balance = u128;

/// Each account appears at most once among the recorded entries.
pub open spec fn unique_keys(s: Seq<(AccountId, Balance)>) -> bool {
    forall|i: int, j: int| 0 <= i < j < s.len() ==> s[i].0 != s[j].0
}

/// The balance recorded for `account` among the entries, or 0 where the
/// account is absent (absence is a lazy default, not an error).
pub open spec fn balance_in(s: Seq<(AccountId, Balance)>, account: AccountId) -> Balance
    decreases s.len(),
{
    if s.len() == 0 {
        0
    } else if s.last().0 == account {
        s.last().1
    } else {
        balance_in(s.drop_last(), account)
    }
}

/// The sum of all recorded balances.
pub open spec fn sum_balances(s: Seq<(AccountId, Balance)>) -> int
    decreases s.len(),
{
    if s.len() == 0 {
        0
    } else {
        sum_balances(s.drop_last()) + s.last().1
    }
}

/// A finite mapping from account identifier to balance, owned exclusively by
/// its ledger or vault. Accounts absent from the mapping hold balance 0.
pub struct BalanceMap {
    entries: Vec<(AccountId, Balance)>,
}

impl BalanceMap {
    /// Well-formedness: no account is recorded twice.
    pub closed spec fn wf(self) -> bool {
        unique_keys(self.entries@)
    }

    /// The balance held by `account`, 0 where absent.
    pub closed spec fn spec_balance_of(self, account: AccountId) -> Balance {
        balance_in(self.entries@, account)
    }

    /// The sum of the balances of all accounts.
    pub closed spec fn spec_sum(self) -> int {
        sum_balances(self.entries@)
    }

    /// Creates an empty mapping: every account holds 0 and the sum is 0.
    pub fn new() -> (r: Self)
        ensures
            r.wf(),
            r.spec_sum() == 0,
            forall|a: AccountId| r.spec_balance_of(a) == 0,
    {
        BalanceMap { entries: Vec::new() }
    }

    /// Position of `account` among the entries, if it is recorded.
    fn find(&self, account: AccountId) -> (r: Option<usize>)
        requires
            self.wf(),
        ensures
            match r {
                Some(i) => i < self.entries@.len() && self.entries@[i as int].0 == account
                    && self.entries@[i as int].1 == self.spec_balance_of(account),
                None => self.spec_balance_of(account) == 0
                    && forall|j: int| 0 <= j < self.entries@.len() ==> self.entries@[j].0 != account,
            },
    {
        let mut i: usize = 0;
        while i < self.entries.len()
            invariant
                i <= self.entries@.len(),
                forall|j: int| 0 <= j < i ==> self.entries@[j].0 != account,
                self.wf(),
            decreases self.entries@.len() - i,
        {
            if self.entries[i].0 == account {
                proof {
                    lemma_balance_found(self.entries@, i as int, account);
                }
                return Some(i);
            }
            i = i + 1;
        }
        proof {
            lemma_balance_absent(self.entries@, account);
        }
        None
    }

    /// Records `value` as the balance held by `account`, leaving every other
    /// account untouched and moving the sum by the difference.
    pub fn set_balance(&mut self, account: AccountId, value: Balance)
        requires
            old(self).wf(),
        ensures
            final(self).wf(),
            final(self).spec_balance_of(account) == value,
            forall|a: AccountId| a != account
                ==> final(self).spec_balance_of(a) == old(self).spec_balance_of(a),
            final(self).spec_sum()
                == old(self).spec_sum() - old(self).spec_balance_of(account) + value,
    {
        match self.find(account) {
            Some(i) => {
                let ghost s = self.entries@;
                self.entries[i] = (account, value);
                proof {
                    lemma_sum_update(s, i as int, (account, value));
                    assert forall|a: AccountId| a != account implies balance_in(
                        self.entries@,
                        a,
                    ) == balance_in(s, a) by {
                        lemma_balance_update(s, i as int, (account, value), a);
                    }
                    lemma_balance_update(s, i as int, (account, value), account);
                    assert(unique_keys(self.entries@));
                }
            },
            None => {
                let ghost s = self.entries@;
                self.entries.push((account, value));
                proof {
                    assert(self.entries@.drop_last() =~= s);
                    assert(unique_keys(self.entries@));
                }
            },
        }
    }

    /// Reads the balance held by `account`; absent accounts read as 0.
    pub fn get_balance(&self, account: AccountId) -> (r: Balance)
        requires
            self.wf(),
        ensures
            r == self.spec_balance_of(account),
    {
        match self.find(account) {
            Some(i) => self.entries[i].1,
            None => 0,
        }
    }
}

/// With unique keys, the recorded balance is the value stored at the
/// account's entry.
proof fn lemma_balance_found(s: Seq<(AccountId, Balance)>, i: int, account: AccountId)
    requires
        unique_keys(s),
        0 <= i < s.len(),
        s[i].0 == account,
    ensures
        balance_in(s, account) == s[i].1,
    decreases s.len(),
{
    if i < s.len() - 1 {
        assert(s.last().0 != account);
        assert(unique_keys(s.drop_last()));
        lemma_balance_found(s.drop_last(), i, account);
    }
}

/// An account recorded nowhere holds balance 0.
proof fn lemma_balance_absent(s: Seq<(AccountId, Balance)>, account: AccountId)
    requires
        forall|j: int| 0 <= j < s.len() ==> s[j].0 != account,
    ensures
        balance_in(s, account) == 0,
    decreases s.len(),
{
    if s.len() > 0 {
        lemma_balance_absent(s.drop_last(), account);
    }
}

/// Replacing the entry at `i` moves the balance sum by the difference between
/// the new value and the one it overwrites.
proof fn lemma_sum_update(s: Seq<(AccountId, Balance)>, i: int, p: (AccountId, Balance))
    requires
        0 <= i < s.len(),
    ensures
        sum_balances(s.update(i, p)) == sum_balances(s) - s[i].1 + p.1,
    decreases s.len(),
{
    let t = s.update(i, p);
    if i == s.len() - 1 {
        assert(t.drop_last() =~= s.drop_last());
    } else {
        assert(t.drop_last() =~= s.drop_last().update(i, p));
        lemma_sum_update(s.drop_last(), i, p);
    }
}

/// Replacing the entry at `i` with one under the same key keeps the keys
/// unique, records the new value for that key, and leaves every other
/// account's balance as it was.
proof fn lemma_balance_update(
    s: Seq<(AccountId, Balance)>,
    i: int,
    p: (AccountId, Balance),
    a: AccountId,
)
    requires
        unique_keys(s),
        0 <= i < s.len(),
        p.0 == s[i].0,
    ensures
        unique_keys(s.update(i, p)),
        balance_in(s.update(i, p), p.0) == p.1,
        a != p.0 ==> balance_in(s.update(i, p), a) == balance_in(s, a),
    decreases s.len(),
{
    let t = s.update(i, p);
    assert(forall|j: int| 0 <= j < s.len() ==> t[j].0 == s[j].0);
    if i == s.len() - 1 {
        assert(t.drop_last() =~= s.drop_last());
    } else {
        assert(t.drop_last() =~= s.drop_last().update(i, p));
        assert(unique_keys(s.drop_last()));
        assert(s.last().0 != p.0);
        lemma_balance_update(s.drop_last(), i, p, a);
    }
}

/// Non-negativity: every balance the mapping reports, recorded or defaulted,
/// is at least zero. Balances are unsigned and can never go negative.
pub proof fn lemma_balance_non_negative(m: BalanceMap, account: AccountId)
    ensures
        m.spec_balance_of(account) >= 0,
{
}

} // verus!

use crate::balances::AccountId;
use crate::balances::Balance;
use crate::balances::BalanceMap;
use crate::errors::Error;
use vstd::prelude::*;

verus! {

/// A token ledger: the mapping from account to balance together with the
/// total-supply counter. Every operation is a single atomic transition:
/// it either applies completely or leaves the state untouched.
pub struct Erc20Token {
    total_supply: Balance,
    balances: BalanceMap,
}

impl Erc20Token {
    /// Well-formedness of the underlying balance mapping.
    pub closed spec fn wf(self) -> bool {
        self.balances.wf()
    }

    /// The recorded total supply.
    pub closed spec fn spec_total_supply(self) -> Balance {
        self.total_supply
    }

    /// The balance held by `account`, 0 where absent.
    pub closed spec fn spec_balance_of(self, account: AccountId) -> Balance {
        self.balances.spec_balance_of(account)
    }

    /// The sum of the balances of all accounts.
    pub closed spec fn spec_sum(self) -> int {
        self.balances.spec_sum()
    }

    /// Conservation: the recorded total supply equals the sum of all
    /// balances. A ledger constructed with initial supply 0 satisfies it,
    /// and every successful `mint` or `transfer` preserves it.
    pub open spec fn conserves(self) -> bool {
        self.spec_total_supply() as int == self.spec_sum()
    }

    /// Creates a ledger with the given total supply and no balances yet
    /// attributed to any account. Note that with `initial_supply > 0` the
    /// constructed state does not satisfy [`Self::conserves`]: the supply is
    /// deliberately left unattributed rather than credited to a holder.
    pub fn new(initial_supply: Balance) -> (r: Self)
        ensures
            r.wf(),
            r.spec_total_supply() == initial_supply,
            r.spec_sum() == 0,
            forall|a: AccountId| r.spec_balance_of(a) == 0,
    {
        Erc20Token { total_supply: initial_supply, balances: BalanceMap::new() }
    }

    /// Returns the current total supply. No side effects; always succeeds.
    pub fn total_supply(&self) -> (r: Balance)
        ensures
            r == self.spec_total_supply(),
    {
        self.total_supply
    }

    /// Returns the recorded balance for `account`, or 0 if absent.
    /// No side effects; always succeeds.
    pub fn balance_of(&self, account: AccountId) -> (r: Balance)
        requires
            self.wf(),
        ensures
            r == self.spec_balance_of(account),
    {
        self.balances.get_balance(account)
    }

    /// Increases `recipient`'s balance and the total supply by `amount`,
    /// atomically. Fails with `Overflow`, mutating nothing, exactly when the
    /// new total supply or the new recipient balance would not fit.
    pub fn mint(&mut self, recipient: AccountId, amount: Balance) -> (r: Result<(), Error>)
        requires
            old(self).wf(),
        ensures
            final(self).wf(),
            r is Ok <==> {
                &&& old(self).spec_total_supply() + amount <= Balance::MAX
                &&& old(self).spec_balance_of(recipient) + amount <= Balance::MAX
            },
            r is Ok ==> {
                &&& final(self).spec_total_supply() == old(self).spec_total_supply() + amount
                &&& final(self).spec_balance_of(recipient) == old(self).spec_balance_of(
                    recipient,
                ) + amount
                &&& forall|a: AccountId| a != recipient
                    ==> final(self).spec_balance_of(a) == old(self).spec_balance_of(a)
                &&& final(self).spec_sum() == old(self).spec_sum() + amount
            },
            r is Err ==> *final(self) == *old(self) && (r matches Err(Error::Overflow)),
            old(self).conserves() ==> final(self).conserves(),
    {
        let new_supply = match self.total_supply.checked_add(amount) {
            Some(v) => v,
            None => { return Err(Error::Overflow) },
        };
        let recipient_balance = self.balances.get_balance(recipient);
        let new_balance = match recipient_balance.checked_add(amount) {
            Some(v) => v,
            None => { return Err(Error::Overflow) },
        };
        self.total_supply = new_supply;
        self.balances.set_balance(recipient, new_balance);
        Ok(())
    }

    /// Atomically debits `from` and credits `to` by `amount`. A transfer of
    /// an account to itself with sufficient funds succeeds and changes
    /// nothing. On any failure no mutation occurs; `InsufficientFunds` is
    /// returned exactly when `from` holds less than `amount`, and `Overflow`
    /// exactly when the funds suffice but crediting `to` would not fit.
    pub fn transfer(&mut self, from: AccountId, to: AccountId, amount: Balance) -> (r: Result<
        (),
        Error,
    >)
        requires
            old(self).wf(),
        ensures
            final(self).wf(),
            final(self).spec_total_supply() == old(self).spec_total_supply(),
            r is Ok <==> {
                &&& old(self).spec_balance_of(from) >= amount
                &&& (from == to || old(self).spec_balance_of(to) + amount <= Balance::MAX)
            },
            r is Ok ==> final(self).spec_sum() == old(self).spec_sum(),
            r is Ok && from == to ==> *final(self) == *old(self),
            r is Ok && from != to ==> {
                &&& final(self).spec_balance_of(from) == old(self).spec_balance_of(from) - amount
                &&& final(self).spec_balance_of(to) == old(self).spec_balance_of(to) + amount
                &&& forall|a: AccountId| a != from && a != to
                    ==> final(self).spec_balance_of(a) == old(self).spec_balance_of(a)
            },
            r is Err ==> *final(self) == *old(self),
            (r matches Err(Error::InsufficientFunds)) <==> old(self).spec_balance_of(from)
                < amount,
            (r matches Err(Error::Overflow)) <==> {
                &&& old(self).spec_balance_of(from) >= amount
                &&& from != to
                &&& old(self).spec_balance_of(to) + amount > Balance::MAX
            },
            old(self).conserves() ==> final(self).conserves(),
    {
        let from_balance = self.balances.get_balance(from);
        if from_balance < amount {
            return Err(Error::InsufficientFunds);
        }
        if from == to {
            return Ok(());
        }
        let to_balance = self.balances.get_balance(to);
        let new_to_balance = match to_balance.checked_add(amount) {
            Some(v) => v,
            None => { return Err(Error::Overflow) },
        };
        self.balances.set_balance(from, from_balance - amount);
        self.balances.set_balance(to, new_to_balance);
        Ok(())
    }
}

/// Non-negativity: the balance the ledger reports for any account, recorded
/// or defaulted, is at least zero. Balances are unsigned and can never go
/// negative.
pub proof fn lemma_ledger_balance_non_negative(ledger: Erc20Token, account: AccountId)
    ensures
        ledger.spec_balance_of(account) >= 0,
{
}

} // verus!

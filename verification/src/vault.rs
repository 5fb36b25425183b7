use crate::balances::AccountId;
use crate::balances::Balance;
use crate::balances::BalanceMap;
use crate::errors::Error;
use vstd::prelude::*;

verus! {

/// A per-caller holding area: deposits and withdrawals move units between a
/// caller and an implicit external reservoir, so there is no total-supply
/// counter to conserve against. The acting account and the affected account
/// are always the same: the host resolves who the caller is and threads that
/// identity in as an explicit argument, and no operation accepts a separate
/// target account.
pub struct Wallet {
    balances: BalanceMap,
}

impl Wallet {
    /// Well-formedness of the underlying balance mapping.
    pub closed spec fn wf(self) -> bool {
        self.balances.wf()
    }

    /// The balance held by `account`, 0 where absent.
    pub closed spec fn spec_balance_of(self, account: AccountId) -> Balance {
        self.balances.spec_balance_of(account)
    }

    /// Creates an empty wallet: every account holds 0.
    pub fn new() -> (r: Self)
        ensures
            r.wf(),
            forall|a: AccountId| r.spec_balance_of(a) == 0,
    {
        Wallet { balances: BalanceMap::new() }
    }

    /// Returns the recorded balance for `account`, or 0 if absent.
    /// No side effects; always succeeds.
    pub fn balance_of(&self, account: AccountId) -> (r: Balance)
        requires
            self.wf(),
        ensures
            r == self.spec_balance_of(account),
    {
        self.balances.get_balance(account)
    }

    /// Increases `caller`'s balance by `amount`. Fails with `Overflow`,
    /// mutating nothing, exactly when the new balance would not fit; on
    /// success only `caller`'s balance changes, by exactly `amount`.
    pub fn deposit(&mut self, caller: AccountId, amount: Balance) -> (r: Result<(), Error>)
        requires
            old(self).wf(),
        ensures
            final(self).wf(),
            r is Ok <==> old(self).spec_balance_of(caller) + amount <= Balance::MAX,
            r is Ok ==> {
                &&& final(self).spec_balance_of(caller) == old(self).spec_balance_of(caller)
                    + amount
                &&& forall|a: AccountId| a != caller
                    ==> final(self).spec_balance_of(a) == old(self).spec_balance_of(a)
            },
            r is Err ==> *final(self) == *old(self) && (r matches Err(Error::Overflow)),
    {
        let balance = self.balances.get_balance(caller);
        let new_balance = match balance.checked_add(amount) {
            Some(v) => v,
            None => { return Err(Error::Overflow) },
        };
        self.balances.set_balance(caller, new_balance);
        Ok(())
    }

    /// Decreases `caller`'s balance by `amount`; an absent caller holds 0.
    /// Fails with `InsufficientFunds`, mutating nothing, exactly when the
    /// caller holds less than `amount`; on success only `caller`'s balance
    /// changes, by exactly `amount`.
    pub fn withdraw(&mut self, caller: AccountId, amount: Balance) -> (r: Result<(), Error>)
        requires
            old(self).wf(),
        ensures
            final(self).wf(),
            r is Ok <==> old(self).spec_balance_of(caller) >= amount,
            r is Ok ==> {
                &&& final(self).spec_balance_of(caller) == old(self).spec_balance_of(caller)
                    - amount
                &&& forall|a: AccountId| a != caller
                    ==> final(self).spec_balance_of(a) == old(self).spec_balance_of(a)
            },
            r is Err ==> *final(self) == *old(self) && (r matches Err(Error::InsufficientFunds)),
    {
        let balance = self.balances.get_balance(caller);
        if balance < amount {
            return Err(Error::InsufficientFunds);
        }
        self.balances.set_balance(caller, balance - amount);
        Ok(())
    }
}

/// Non-negativity: the balance the wallet reports for any account, recorded
/// or defaulted, is at least zero. Balances are unsigned and can never go
/// negative.
pub proof fn lemma_wallet_balance_non_negative(wallet: Wallet, account: AccountId)
    ensures
        wallet.spec_balance_of(account) >= 0,
{
}

} // verus!

//! The currency ledger: free and reserved balances per account, changed only
//! by atomic operations that either apply completely or not at all.

use crate::types::{AccountId, Balance};
use std::collections::HashMap;
use vstd::prelude::*;

verus! {

broadcast use vstd::std_specs::hash::group_hash_axioms;

/// Whether a transfer may leave the sender without any free balance.
#[derive(Clone, Copy, PartialEq, Eq, Structural, Debug)]
pub enum ExistenceRequirement {
    /// The sender must keep a positive free balance.
    KeepAlive,
    /// The sender may be emptied.
    AllowDeath,
}

/// Why a currency operation was refused.
#[derive(Clone, Copy, PartialEq, Eq, Structural, Debug)]
pub enum Error {
    /// The account's free balance is smaller than the amount.
    InsufficientBalance,
    /// The receiving balance would exceed the largest representable amount.
    Overflow,
    /// The transfer would empty an account that has to stay alive.
    KeepAlive,
}

/// The mathematical content of a [`Balances`] ledger. An account that is absent
/// from a map holds nothing; no entry is zero.
pub struct BalancesView {
    pub free: Map<AccountId, Balance>,
    pub reserved: Map<AccountId, Balance>,
}

/// `m` with the balance of `who` set to `amount`; a zero balance is no entry.
pub open spec fn with_balance(m: Map<AccountId, Balance>, who: AccountId, amount: Balance) -> Map<
    AccountId,
    Balance,
> {
    if amount == 0 {
        m.remove(who)
    } else {
        m.insert(who, amount)
    }
}

/// The balance that `m` records for `who`.
pub open spec fn balance_in(m: Map<AccountId, Balance>, who: AccountId) -> Balance {
    if m.contains_key(who) {
        m[who]
    } else {
        0
    }
}

impl BalancesView {
    /// The ledger in which nobody holds anything.
    pub open spec fn empty() -> BalancesView {
        BalancesView { free: Map::empty(), reserved: Map::empty() }
    }

    pub open spec fn free_balance(self, who: AccountId) -> Balance {
        balance_in(self.free, who)
    }

    pub open spec fn reserved_balance(self, who: AccountId) -> Balance {
        balance_in(self.reserved, who)
    }

    pub open spec fn set_free(self, who: AccountId, amount: Balance) -> BalancesView {
        BalancesView { free: with_balance(self.free, who, amount), ..self }
    }

    pub open spec fn set_reserved(self, who: AccountId, amount: Balance) -> BalancesView {
        BalancesView { reserved: with_balance(self.reserved, who, amount), ..self }
    }

    /// Moving `amount` of free balance from `from` to `to`.
    pub open spec fn transfer(
        self,
        from: AccountId,
        to: AccountId,
        amount: Balance,
        existence: ExistenceRequirement,
    ) -> Result<BalancesView, Error> {
        if self.free_balance(from) < amount {
            Err(Error::InsufficientBalance)
        } else if existence == ExistenceRequirement::KeepAlive && amount > 0 && self.free_balance(
            from,
        ) == amount {
            Err(Error::KeepAlive)
        } else if from == to {
            Ok(self)
        } else if self.free_balance(to) + amount > Balance::MAX {
            Err(Error::Overflow)
        } else {
            Ok(
                self.set_free(from, (self.free_balance(from) - amount) as Balance).set_free(
                    to,
                    (self.free_balance(to) + amount) as Balance,
                ),
            )
        }
    }

    /// Moving `amount` of the free balance of `who` into its reserved balance.
    pub open spec fn reserve(self, who: AccountId, amount: Balance) -> Result<BalancesView, Error> {
        if self.free_balance(who) < amount {
            Err(Error::InsufficientBalance)
        } else if self.reserved_balance(who) + amount > Balance::MAX {
            Err(Error::Overflow)
        } else {
            Ok(
                self.set_free(who, (self.free_balance(who) - amount) as Balance).set_reserved(
                    who,
                    (self.reserved_balance(who) + amount) as Balance,
                ),
            )
        }
    }

    /// Moving `amount` of the reserved balance of `who` back into its free balance.
    pub open spec fn unreserve(self, who: AccountId, amount: Balance) -> Result<
        BalancesView,
        Error,
    > {
        if self.reserved_balance(who) < amount {
            Err(Error::InsufficientBalance)
        } else if self.free_balance(who) + amount > Balance::MAX {
            Err(Error::Overflow)
        } else {
            Ok(
                self.set_reserved(who, (self.reserved_balance(who) - amount) as Balance).set_free(
                    who,
                    (self.free_balance(who) + amount) as Balance,
                ),
            )
        }
    }
}

/// The free and reserved balance of every account.
pub struct Balances {
    free: HashMap<AccountId, Balance>,
    reserved: HashMap<AccountId, Balance>,
}

/// The positive entries of `m`.
pub open spec fn positive_entries(m: Map<AccountId, Balance>) -> Map<AccountId, Balance> {
    Map::new(|k: AccountId| m.contains_key(k) && m[k] > 0, |k: AccountId| m[k])
}

impl View for Balances {
    type V = BalancesView;

    closed spec fn view(&self) -> BalancesView {
        BalancesView {
            free: positive_entries(self.free@),
            reserved: positive_entries(self.reserved@),
        }
    }
}

impl Balances {
    /// A ledger in which nobody holds anything.
    pub fn new() -> (b: Balances)
        ensures
            b@ == BalancesView::empty(),
    {
        let b = Balances { free: HashMap::new(), reserved: HashMap::new() };
        assert(b@.free =~= Map::empty());
        assert(b@.reserved =~= Map::empty());
        b
    }

    /// A copy of the ledger.
    pub fn snapshot(&self) -> (copy: Balances)
        ensures
            copy@ == self@,
    {
        Balances { free: self.free.clone(), reserved: self.reserved.clone() }
    }

    /// The free balance of `who`.
    pub fn free_balance(&self, who: AccountId) -> (amount: Balance)
        ensures
            amount == self@.free_balance(who),
    {
        match self.free.get(&who) {
            Some(v) => *v,
            None => 0,
        }
    }

    /// The reserved balance of `who`.
    pub fn reserved_balance(&self, who: AccountId) -> (amount: Balance)
        ensures
            amount == self@.reserved_balance(who),
    {
        match self.reserved.get(&who) {
            Some(v) => *v,
            None => 0,
        }
    }

    /// Sets the free balance of `who` to `amount`, whatever it was.
    pub fn make_free_balance_be(&mut self, who: AccountId, amount: Balance)
        ensures
            final(self)@ == old(self)@.set_free(who, amount),
    {
        self.free.insert(who, amount);
        assert(self@.free =~= with_balance(old(self)@.free, who, amount));
    }

    fn set_reserved_balance(&mut self, who: AccountId, amount: Balance)
        ensures
            final(self)@ == old(self)@.set_reserved(who, amount),
    {
        self.reserved.insert(who, amount);
        assert(self@.reserved =~= with_balance(old(self)@.reserved, who, amount));
    }

    /// Moves `amount` of free balance from `from` to `to`.
    ///
    /// Fails, changing nothing, when `from` holds less than `amount`, when the
    /// transfer would empty a sender that `existence` keeps alive, or when the
    /// balance of `to` would overflow.
    pub fn transfer(
        &mut self,
        from: AccountId,
        to: AccountId,
        amount: Balance,
        existence: ExistenceRequirement,
    ) -> (res: Result<(), Error>)
        ensures
            match old(self)@.transfer(from, to, amount, existence) {
                Ok(after) => res is Ok && final(self)@ == after,
                Err(e) => res == Err::<(), Error>(e) && final(self)@ == old(self)@,
            },
    {
        let held = self.free_balance(from);
        if held < amount {
            return Err(Error::InsufficientBalance);
        }
        if existence == ExistenceRequirement::KeepAlive && amount > 0 && held == amount {
            return Err(Error::KeepAlive);
        }
        if from == to {
            return Ok(());
        }
        let target = self.free_balance(to);
        if target > Balance::MAX - amount {
            return Err(Error::Overflow);
        }
        self.make_free_balance_be(from, held - amount);
        self.make_free_balance_be(to, target + amount);
        Ok(())
    }

    /// Moves `amount` of the free balance of `who` into its reserved balance.
    pub fn reserve(&mut self, who: AccountId, amount: Balance) -> (res: Result<(), Error>)
        ensures
            match old(self)@.reserve(who, amount) {
                Ok(after) => res is Ok && final(self)@ == after,
                Err(e) => res == Err::<(), Error>(e) && final(self)@ == old(self)@,
            },
    {
        let held = self.free_balance(who);
        if held < amount {
            return Err(Error::InsufficientBalance);
        }
        let kept = self.reserved_balance(who);
        if kept > Balance::MAX - amount {
            return Err(Error::Overflow);
        }
        self.make_free_balance_be(who, held - amount);
        self.set_reserved_balance(who, kept + amount);
        Ok(())
    }

    /// Moves `amount` of the reserved balance of `who` back into its free balance.
    pub fn unreserve(&mut self, who: AccountId, amount: Balance) -> (res: Result<(), Error>)
        ensures
            match old(self)@.unreserve(who, amount) {
                Ok(after) => res is Ok && final(self)@ == after,
                Err(e) => res == Err::<(), Error>(e) && final(self)@ == old(self)@,
            },
    {
        let kept = self.reserved_balance(who);
        if kept < amount {
            return Err(Error::InsufficientBalance);
        }
        let held = self.free_balance(who);
        if held > Balance::MAX - amount {
            return Err(Error::Overflow);
        }
        self.set_reserved_balance(who, kept - amount);
        self.make_free_balance_be(who, held + amount);
        Ok(())
    }
}

/// A transfer between two accounts keeps the sum of their free balances, and
/// touches no other account and no reserve.
pub proof fn lemma_transfer_conserves(
    before: BalancesView,
    from: AccountId,
    to: AccountId,
    amount: Balance,
    existence: ExistenceRequirement,
    other: AccountId,
)
    requires
        before.transfer(from, to, amount, existence) is Ok,
        from != to,
        other != from,
        other != to,
    ensures
        ({
            let after = before.transfer(from, to, amount, existence)->Ok_0;
            &&& after.free_balance(from) == before.free_balance(from) - amount
            &&& after.free_balance(to) == before.free_balance(to) + amount
            &&& after.free_balance(other) == before.free_balance(other)
            &&& after.reserved == before.reserved
        }),
{
}

} // verus!

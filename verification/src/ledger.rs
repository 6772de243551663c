//! Model of the fungible fee-asset ledger.
//!
//! The relay consumes exactly one primitive of the asset ledger: an atomic
//! `transfer(from, to, amount)` that either moves the full amount or moves
//! nothing. This module gives that primitive a verified model: a table of
//! account balances on which every relay-visible effect of a transfer is
//! stated and proved.

use vstd::prelude::*;

verus! {

/// A table of account balances for one fungible asset. An account that was
/// never touched holds a balance of zero.
pub struct Ledger {
    accounts: Vec<(u64, i128)>,
}

impl Ledger {
    /// The balance that `entries` assigns to `who`: the value of the first
    /// entry for that account, or zero when there is none.
    spec fn balance_in(entries: Seq<(u64, i128)>, who: u64) -> i128
        decreases entries.len(),
    {
        if entries.len() == 0 {
            0
        } else if entries[0].0 == who {
            entries[0].1
        } else {
            Self::balance_in(entries.drop_first(), who)
        }
    }

    /// The balance of `who` on this ledger.
    pub closed spec fn spec_balance(&self, who: u64) -> i128 {
        Self::balance_in(self.accounts@, who)
    }

    /// Whether a transfer of `amount` from `from` to `to` can complete on
    /// this ledger: the amount is non-negative, the payer holds at least
    /// that much, and the payee's balance has room for it.
    pub open spec fn transfer_allowed(&self, from: u64, to: u64, amount: i128) -> bool {
        &&& 0 <= amount
        &&& amount <= self.spec_balance(from)
        &&& (from == to || self.spec_balance(to) + amount <= i128::MAX)
    }

    /// An entry before the first one for an account does not take part in
    /// that account's balance.
    proof fn lemma_balance_first_match(entries: Seq<(u64, i128)>, i: int)
        requires
            0 <= i < entries.len(),
            forall|j: int| 0 <= j < i ==> (#[trigger] entries[j]).0 != entries[i].0,
        ensures
            Self::balance_in(entries, entries[i].0) == entries[i].1,
        decreases entries.len(),
    {
        if i > 0 {
            Self::lemma_balance_first_match(entries.drop_first(), i - 1);
        }
    }

    /// An account with no entry holds a balance of zero.
    proof fn lemma_balance_absent(entries: Seq<(u64, i128)>, who: u64)
        requires
            forall|j: int| 0 <= j < entries.len() ==> (#[trigger] entries[j]).0 != who,
        ensures
            Self::balance_in(entries, who) == 0,
        decreases entries.len(),
    {
        if entries.len() > 0 {
            Self::lemma_balance_absent(entries.drop_first(), who);
        }
    }

    /// Overwriting the first entry of an account sets that account's balance
    /// and no other.
    proof fn lemma_balance_update(entries: Seq<(u64, i128)>, i: int, v: i128)
        requires
            0 <= i < entries.len(),
            forall|j: int| 0 <= j < i ==> (#[trigger] entries[j]).0 != entries[i].0,
        ensures
            Self::balance_in(entries.update(i, (entries[i].0, v)), entries[i].0) == v,
            forall|w: u64|
                w != entries[i].0 ==> Self::balance_in(entries.update(i, (entries[i].0, v)), w)
                    == #[trigger] Self::balance_in(entries, w),
        decreases entries.len(),
    {
        let k = entries[i].0;
        let updated = entries.update(i, (k, v));
        if i == 0 {
            assert(updated.drop_first() =~= entries.drop_first());
            assert forall|w: u64|
                w != k implies Self::balance_in(updated, w)
                    == #[trigger] Self::balance_in(entries, w) by {
                assert(Self::balance_in(updated, w) == Self::balance_in(updated.drop_first(), w));
                assert(Self::balance_in(entries, w) == Self::balance_in(entries.drop_first(), w));
            }
        } else {
            Self::lemma_balance_update(entries.drop_first(), i - 1, v);
            assert(updated.drop_first() =~= entries.drop_first().update(i - 1, (k, v)));
            assert(entries[0].0 != k);
            assert(Self::balance_in(updated, k) == Self::balance_in(updated.drop_first(), k));
            assert forall|w: u64|
                w != k implies Self::balance_in(updated, w)
                    == #[trigger] Self::balance_in(entries, w) by {
                assert(updated[0] == entries[0]);
                if entries[0].0 != w {
                    assert(Self::balance_in(updated, w)
                        == Self::balance_in(updated.drop_first(), w));
                    assert(Self::balance_in(entries, w)
                        == Self::balance_in(entries.drop_first(), w));
                }
            }
        }
    }

    /// Appending an entry for an account that has none sets that account's
    /// balance and no other.
    proof fn lemma_balance_push(entries: Seq<(u64, i128)>, who: u64, v: i128)
        requires
            forall|j: int| 0 <= j < entries.len() ==> (#[trigger] entries[j]).0 != who,
        ensures
            Self::balance_in(entries.push((who, v)), who) == v,
            forall|w: u64|
                w != who ==> Self::balance_in(entries.push((who, v)), w)
                    == #[trigger] Self::balance_in(entries, w),
        decreases entries.len(),
    {
        let pushed = entries.push((who, v));
        if entries.len() == 0 {
            assert(pushed.drop_first() =~= Seq::<(u64, i128)>::empty());
            assert forall|w: u64|
                w != who implies Self::balance_in(pushed, w)
                    == #[trigger] Self::balance_in(entries, w) by {
                assert(Self::balance_in(pushed, w) == Self::balance_in(pushed.drop_first(), w));
            }
        } else {
            Self::lemma_balance_push(entries.drop_first(), who, v);
            assert(pushed.drop_first() =~= entries.drop_first().push((who, v)));
            assert(pushed[0] == entries[0]);
            assert(entries[0].0 != who);
            assert(Self::balance_in(pushed, who) == Self::balance_in(pushed.drop_first(), who));
            assert forall|w: u64|
                w != who implies Self::balance_in(pushed, w)
                    == #[trigger] Self::balance_in(entries, w) by {
                if entries[0].0 != w {
                    assert(Self::balance_in(pushed, w)
                        == Self::balance_in(pushed.drop_first(), w));
                    assert(Self::balance_in(entries, w)
                        == Self::balance_in(entries.drop_first(), w));
                }
            }
        }
    }

    /// A ledger on which every account holds zero.
    pub fn new() -> (l: Ledger)
        ensures
            forall|w: u64| l.spec_balance(w) == 0,
    {
        Ledger { accounts: Vec::new() }
    }

    /// The position of the first entry for `who`, if there is one.
    fn find_index(&self, who: u64) -> (r: Option<usize>)
        ensures
            match r {
                Some(i) => i < self.accounts@.len() && self.accounts@[i as int].0 == who
                    && forall|j: int| 0 <= j < i ==> (#[trigger] self.accounts@[j]).0 != who,
                None => forall|j: int|
                    0 <= j < self.accounts@.len() ==> (#[trigger] self.accounts@[j]).0 != who,
            },
    {
        let n = self.accounts.len();
        let mut i: usize = 0;
        while i < n
            invariant
                0 <= i <= n,
                n == self.accounts.len(),
                forall|j: int| 0 <= j < i ==> (#[trigger] self.accounts@[j]).0 != who,
            decreases n - i,
        {
            if self.accounts[i].0 == who {
                return Some(i);
            }
            i = i + 1;
        }
        None
    }

    /// The balance of `who`.
    pub fn balance_of(&self, who: u64) -> (r: i128)
        ensures
            r == self.spec_balance(who),
    {
        match self.find_index(who) {
            Some(i) => {
                proof {
                    Self::lemma_balance_first_match(self.accounts@, i as int);
                }
                self.accounts[i].1
            },
            None => {
                proof {
                    Self::lemma_balance_absent(self.accounts@, who);
                }
                0
            },
        }
    }

    /// Sets the balance of `who` to `amount`, leaving every other account
    /// as it was.
    pub fn set_balance(&mut self, who: u64, amount: i128)
        ensures
            final(self).spec_balance(who) == amount,
            forall|w: u64|
                w != who ==> final(self).spec_balance(w) == old(self).spec_balance(w),
    {
        match self.find_index(who) {
            Some(i) => {
                proof {
                    Self::lemma_balance_update(self.accounts@, i as int, amount);
                }
                self.accounts.set(i, (who, amount));
            },
            None => {
                proof {
                    Self::lemma_balance_push(self.accounts@, who, amount);
                }
                self.accounts.push((who, amount));
            },
        }
    }

    /// Moves `amount` from `from` to `to`, atomically: either the full
    /// amount moves and the call reports success, or no balance changes
    /// and the call reports failure. Success is reported exactly when
    /// `transfer_allowed` held of the ledger before the call.
    pub fn transfer(&mut self, from: u64, to: u64, amount: i128) -> (ok: bool)
        ensures
            ok == old(self).transfer_allowed(from, to, amount),
            !ok ==> forall|w: u64|
                final(self).spec_balance(w) == old(self).spec_balance(w),
            ok && from == to ==> forall|w: u64|
                final(self).spec_balance(w) == old(self).spec_balance(w),
            ok && from != to ==> {
                &&& final(self).spec_balance(from) == old(self).spec_balance(from) - amount
                &&& final(self).spec_balance(to) == old(self).spec_balance(to) + amount
                &&& forall|w: u64|
                    w != from && w != to
                        ==> final(self).spec_balance(w) == old(self).spec_balance(w)
            },
    {
        if amount < 0 {
            return false;
        }
        let from_bal = self.balance_of(from);
        if from_bal < amount {
            return false;
        }
        if from == to {
            return true;
        }
        let to_bal = self.balance_of(to);
        if to_bal > 0 && amount > i128::MAX - to_bal {
            return false;
        }
        self.set_balance(from, from_bal - amount);
        self.set_balance(to, to_bal + amount);
        true
    }
}

} // verus!

//! A map from accounts to balances whose entries, once created, are only
//! ever increased.

use vstd::prelude::*;

use crate::account::AccountId;
use crate::Balance;

verus! {

/// What a query of `k` in `m` gives: the stored balance, or `None` when `k`
/// has no entry (which is not the same as a balance of zero).
pub open spec fn balance_in(m: Map<Seq<u8>, Balance>, k: Seq<u8>) -> Option<Balance> {
    if m.contains_key(k) {
        Some(m[k])
    } else {
        None
    }
}

/// `a + b`, held at `Balance::MAX` where the sum does not fit.
pub open spec fn saturating_sum(a: Balance, b: Balance) -> Balance {
    if a + b > Balance::MAX {
        Balance::MAX
    } else {
        (a + b) as Balance
    }
}

/// `m` after crediting `amount` to `k`: the entry of `k`, zero where it was
/// absent, grows by `amount` (saturating); every other entry stays.
pub open spec fn credited(m: Map<Seq<u8>, Balance>, k: Seq<u8>, amount: Balance) -> Map<
    Seq<u8>,
    Balance,
> {
    let current = if m.contains_key(k) {
        m[k]
    } else {
        0
    };
    m.insert(k, saturating_sum(current, amount))
}

/// Account balances, kept as a list of entries with distinct accounts.
pub struct BalanceMap {
    entries: Vec<(AccountId, Balance)>,
    model: Ghost<Map<Seq<u8>, Balance>>,
}

impl View for BalanceMap {
    type V = Map<Seq<u8>, Balance>;

    closed spec fn view(&self) -> Map<Seq<u8>, Balance> {
        self.model@
    }
}

impl BalanceMap {
    /// The entries have distinct accounts and agree with the model.
    pub closed spec fn wf(&self) -> bool {
        let e = self.entries@;
        let m = self.model@;
        &&& forall|i: int, j: int| 0 <= i < j < e.len() ==> e[i].0@ != e[j].0@
        &&& forall|i: int|
            0 <= i < e.len() ==> #[trigger] m.contains_key(e[i].0@) && m[e[i].0@] == e[i].1
        &&& forall|k: Seq<u8>|
            #[trigger] m.contains_key(k) ==> exists|i: int| 0 <= i < e.len() && e[i].0@ == k
    }

    /// A map with no entries.
    pub fn new() -> (r: BalanceMap)
        ensures
            r.wf(),
            r@ == Map::<Seq<u8>, Balance>::empty(),
    {
        BalanceMap { entries: Vec::new(), model: Ghost(Map::empty()) }
    }

    /// The position of the entry of `k`, if there is one.
    fn find(&self, k: &AccountId) -> (r: Option<usize>)
        requires
            self.wf(),
        ensures
            match r {
                Some(i) => i < self.entries@.len() && self.entries@[i as int].0@ == k@,
                None => !self@.contains_key(k@),
            },
    {
        let mut i: usize = 0;
        while i < self.entries.len()
            invariant
                self.wf(),
                i <= self.entries@.len(),
                forall|j: int| 0 <= j < i ==> self.entries@[j].0@ != k@,
            decreases self.entries@.len() - i,
        {
            if self.entries[i].0 == *k {
                return Some(i);
            }
            i = i + 1;
        }
        None
    }

    /// The balance of `k`, or `None` if `k` has no entry.
    pub fn get(&self, k: &AccountId) -> (r: Option<Balance>)
        requires
            self.wf(),
        ensures
            r == balance_in(self@, k@),
    {
        match self.find(k) {
            Some(i) => Some(self.entries[i].1),
            None => None,
        }
    }

    /// Adds `amount` to the balance of `k`, creating its entry at zero if
    /// there is none; the sum saturates at `Balance::MAX`.
    pub fn credit(&mut self, k: AccountId, amount: Balance)
        requires
            old(self).wf(),
        ensures
            final(self).wf(),
            final(self)@ == credited(old(self)@, k@, amount),
    {
        match self.find(&k) {
            Some(i) => {
                let total = self.entries[i].1.saturating_add(amount);
                self.entries.set(i, (k, total));
                self.model = Ghost(self.model@.insert(k@, total));
                assert(self.wf()) by {
                    let e = self.entries@;
                    let m = self.model@;
                    assert forall|k2: Seq<u8>| #[trigger] m.contains_key(k2) implies exists|
                        j: int,
                    | 0 <= j < e.len() && e[j].0@ == k2 by {
                        if k2 == k@ {
                            assert(e[i as int].0@ == k2);
                        } else {
                            assert(old(self)@.contains_key(k2));
                            let j = choose|j: int|
                                0 <= j < old(self).entries@.len() && old(self).entries@[j].0@
                                    == k2;
                            assert(e[j].0@ == k2);
                        }
                    }
                }
            },
            None => {
                self.entries.push((k, amount));
                self.model = Ghost(self.model@.insert(k@, amount));
                assert(self.wf()) by {
                    let e = self.entries@;
                    let m = self.model@;
                    let n = e.len() - 1;
                    assert(e[n].0@ == k@);
                    assert forall|i: int| 0 <= i < n implies e[i].0@ != k@ by {
                        assert(old(self).entries@[i] == e[i]);
                        assert(old(self)@.contains_key(old(self).entries@[i].0@));
                    }
                    assert forall|k2: Seq<u8>| #[trigger] m.contains_key(k2) implies exists|
                        j: int,
                    | 0 <= j < e.len() && e[j].0@ == k2 by {
                        if k2 == k@ {
                            assert(e[n].0@ == k2);
                        } else {
                            assert(old(self)@.contains_key(k2));
                            let j = choose|j: int|
                                0 <= j < old(self).entries@.len() && old(self).entries@[j].0@
                                    == k2;
                            assert(e[j].0@ == k2);
                        }
                    }
                }
            },
        }
    }
}

} // verus!

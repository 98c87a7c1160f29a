//! Per-holder balances and the total supply.
//!
//! The ledger keeps one entry per holder and caches the total supply.
//! Well-formedness ties the two together: the keys are pairwise distinct,
//! every entry is non-negative, and the cached total equals the sum of the
//! entries. Every operation requires and preserves it, so in every
//! reachable state the supply is the sum of the balances and no balance is
//! negative.

use crate::assoc::has_key;
use crate::assoc::keys_unique;
use crate::assoc::lemma_value_absent;
use crate::assoc::lemma_value_at_index;
use crate::assoc::lemma_value_push;
use crate::assoc::lemma_value_update;
use crate::assoc::value_of;
use vstd::prelude::*;

verus! {

/// The sum of all balance entries.
pub open spec fn sum_balances(s: Seq<(u64, i128)>) -> int
    decreases s.len(),
{
    if s.len() == 0 {
        0
    } else {
        s[0].1 + sum_balances(s.drop_first())
    }
}

/// The balance recorded for `a`; an absent key means zero.
pub open spec fn balance_in(s: Seq<(u64, i128)>, a: u64) -> int {
    match value_of(s, a) {
        Some(v) => v as int,
        None => 0,
    }
}

/// Holder balances plus the cached total supply.
pub struct Ledger {
    pub entries: Vec<(u64, i128)>,
    pub total: i128,
}

/// With every entry non-negative, the sum is non-negative.
pub proof fn lemma_sum_nonneg(s: Seq<(u64, i128)>)
    requires
        forall|i: int| 0 <= i < s.len() ==> s[i].1 >= 0,
    ensures
        sum_balances(s) >= 0,
    decreases s.len(),
{
    if s.len() > 0 {
        assert forall|i: int| 0 <= i < s.drop_first().len() implies s.drop_first()[i].1 >= 0 by {
            assert(s[i + 1].1 >= 0);
        }
        lemma_sum_nonneg(s.drop_first());
    }
}

/// With every entry non-negative, each single balance lies between zero
/// and the sum of them all.
pub proof fn lemma_balance_le_sum(s: Seq<(u64, i128)>, a: u64)
    requires
        forall|i: int| 0 <= i < s.len() ==> s[i].1 >= 0,
    ensures
        0 <= balance_in(s, a),
        balance_in(s, a) <= sum_balances(s),
    decreases s.len(),
{
    if s.len() > 0 {
        assert forall|i: int| 0 <= i < s.drop_first().len() implies s.drop_first()[i].1 >= 0 by {
            assert(s[i + 1].1 >= 0);
        }
        if s[0].0 == a {
            lemma_sum_nonneg(s.drop_first());
            assert(s[0].1 >= 0);
        } else {
            lemma_balance_le_sum(s.drop_first(), a);
            assert(s[0].1 >= 0);
        }
    }
}

/// Overwriting the entry at index `i` shifts the sum by the difference.
pub proof fn lemma_sum_update(s: Seq<(u64, i128)>, i: int, v: (u64, i128))
    requires
        0 <= i < s.len(),
    ensures
        sum_balances(s.update(i, v)) == sum_balances(s) - s[i].1 + v.1,
    decreases s.len(),
{
    let t = s.update(i, v);
    if i == 0 {
        assert(t.drop_first() =~= s.drop_first());
    } else {
        assert(t[0] == s[0]);
        assert(t.drop_first() =~= s.drop_first().update(i - 1, v));
        lemma_sum_update(s.drop_first(), i - 1, v);
    }
}

/// Appending an entry adds its value to the sum.
pub proof fn lemma_sum_push(s: Seq<(u64, i128)>, e: (u64, i128))
    ensures
        sum_balances(s.push(e)) == sum_balances(s) + e.1,
    decreases s.len(),
{
    reveal_with_fuel(sum_balances, 3);
    let t = s.push(e);
    if s.len() == 0 {
        assert(t[0] == e);
        assert(t.drop_first() =~= Seq::<(u64, i128)>::empty());
    } else {
        assert(t[0] == s[0]);
        assert(t.drop_first() =~= s.drop_first().push(e));
        lemma_sum_push(s.drop_first(), e);
    }
}

impl Ledger {
    /// The keys are distinct, every entry is non-negative, and the cached
    /// total equals the sum of the entries.
    pub open spec fn wf(self) -> bool {
        &&& keys_unique(self.entries@)
        &&& forall|i: int| 0 <= i < self.entries@.len() ==> self.entries@[i].1 >= 0
        &&& self.total as int == sum_balances(self.entries@)
    }

    /// The balance of `a`; zero when `a` holds nothing.
    pub open spec fn bal(self, a: u64) -> int {
        balance_in(self.entries@, a)
    }

    /// The total supply.
    pub open spec fn supply(self) -> int {
        self.total as int
    }

    /// An empty ledger: no holders, zero supply.
    pub fn new() -> (r: Ledger)
        ensures
            r.wf(),
            r.supply() == 0,
            r.entries@.len() == 0,
            forall|a: u64| r.bal(a) == 0,
    {
        Ledger { entries: Vec::new(), total: 0 }
    }

    /// The index of the entry for `a`, if one exists.
    fn find_index(&self, a: u64) -> (r: Option<usize>)
        ensures
            match r {
                Some(i) => i < self.entries.len() && self.entries@[i as int].0 == a,
                None => !has_key(self.entries@, a),
            },
    {
        let n = self.entries.len();
        let mut i: usize = 0;
        while i < n
            invariant
                n == self.entries.len(),
                i <= n,
                forall|j: int| 0 <= j < i ==> self.entries@[j].0 != a,
            decreases n - i,
        {
            if self.entries[i].0 == a {
                return Some(i);
            }
            i = i + 1;
        }
        None
    }

    /// Read the balance of `a`.
    pub fn balance_of(&self, a: u64) -> (r: i128)
        requires
            self.wf(),
        ensures
            r == self.bal(a),
    {
        match self.find_index(a) {
            Some(i) => {
                proof {
                    lemma_value_at_index(self.entries@, i as int);
                }
                self.entries[i].1
            }
            None => {
                proof {
                    lemma_value_absent(self.entries@, a);
                }
                0
            }
        }
    }

    /// Add `amount` units to `a`, raising the supply by the same amount.
    pub fn credit(&mut self, a: u64, amount: i128)
        requires
            old(self).wf(),
            0 <= amount,
            old(self).supply() + amount <= i128::MAX,
        ensures
            final(self).wf(),
            final(self).bal(a) == old(self).bal(a) + amount,
            forall|b: u64| b != a ==> final(self).bal(b) == old(self).bal(b),
            final(self).supply() == old(self).supply() + amount,
    {
        let ghost s0 = self.entries@;
        match self.find_index(a) {
            Some(i) => {
                proof {
                    lemma_value_at_index(s0, i as int);
                    lemma_balance_le_sum(s0, a);
                }
                let cur = self.entries[i].1;
                let raised = cur + amount;
                self.entries[i] = (a, raised);
                proof {
                    lemma_value_update(s0, i as int, (a, raised));
                    lemma_sum_update(s0, i as int, (a, raised));
                    assert forall|j: int|
                        0 <= j < self.entries@.len() implies self.entries@[j].1 >= 0 by {
                        if j != i as int {
                            assert(self.entries@[j] == s0[j]);
                        }
                    }
                }
                self.total = self.total + amount;
            }
            None => {
                proof {
                    lemma_value_absent(s0, a);
                    lemma_value_push(s0, (a, amount));
                    lemma_sum_push(s0, (a, amount));
                    lemma_sum_nonneg(s0);
                }
                self.entries.push((a, amount));
                proof {
                    assert forall|j: int|
                        0 <= j < self.entries@.len() implies self.entries@[j].1 >= 0 by {
                        if j < s0.len() {
                            assert(self.entries@[j] == s0[j]);
                        }
                    }
                }
                self.total = self.total + amount;
            }
        }
    }

    /// Remove `amount` units from `a`, lowering the supply by the same
    /// amount. The holder must cover the amount.
    pub fn debit(&mut self, a: u64, amount: i128)
        requires
            old(self).wf(),
            0 <= amount,
            amount <= old(self).bal(a),
        ensures
            final(self).wf(),
            final(self).bal(a) == old(self).bal(a) - amount,
            forall|b: u64| b != a ==> final(self).bal(b) == old(self).bal(b),
            final(self).supply() == old(self).supply() - amount,
    {
        let ghost s0 = self.entries@;
        match self.find_index(a) {
            Some(i) => {
                proof {
                    lemma_value_at_index(s0, i as int);
                    lemma_balance_le_sum(s0, a);
                }
                let cur = self.entries[i].1;
                let lowered = cur - amount;
                self.entries[i] = (a, lowered);
                proof {
                    lemma_value_update(s0, i as int, (a, lowered));
                    lemma_sum_update(s0, i as int, (a, lowered));
                    assert forall|j: int|
                        0 <= j < self.entries@.len() implies self.entries@[j].1 >= 0 by {
                        if j != i as int {
                            assert(self.entries@[j] == s0[j]);
                        }
                    }
                }
                self.total = self.total - amount;
            }
            None => {
                proof {
                    lemma_value_absent(s0, a);
                }
            }
        }
    }
}

} // verus!

//! The set of addresses permitted to receive units.
//!
//! Membership is what callers observe; the members are kept without
//! duplicates, so adding is idempotent and removing a member removes it
//! entirely.

use vstd::prelude::*;

verus! {

/// The addresses permitted to receive units.
pub struct Whitelist {
    pub members: Vec<u64>,
}

impl Whitelist {
    /// No address appears twice.
    pub open spec fn wf(self) -> bool {
        forall|i: int, j: int|
            0 <= i < j < self.members@.len() ==> self.members@[i] != self.members@[j]
    }

    /// `a` is permitted to receive units.
    pub open spec fn has(self, a: u64) -> bool {
        self.members@.contains(a)
    }

    /// An empty whitelist.
    pub fn new() -> (r: Whitelist)
        ensures
            r.wf(),
            forall|a: u64| !r.has(a),
    {
        Whitelist { members: Vec::new() }
    }

    /// The index at which `a` is listed, if it is.
    fn find_index(&self, a: u64) -> (r: Option<usize>)
        ensures
            match r {
                Some(i) => i < self.members.len() && self.members@[i as int] == a,
                None => !self.has(a),
            },
    {
        let n = self.members.len();
        let mut i: usize = 0;
        while i < n
            invariant
                n == self.members.len(),
                i <= n,
                forall|j: int| 0 <= j < i ==> self.members@[j] != a,
            decreases n - i,
        {
            if self.members[i] == a {
                return Some(i);
            }
            i = i + 1;
        }
        None
    }

    /// Membership test.
    pub fn contains(&self, a: u64) -> (r: bool)
        ensures
            r == self.has(a),
    {
        match self.find_index(a) {
            Some(_) => true,
            None => false,
        }
    }

    /// Admit `a`. Adding an address already listed changes nothing.
    pub fn add(&mut self, a: u64)
        requires
            old(self).wf(),
        ensures
            final(self).wf(),
            final(self).has(a),
            forall|b: u64| b != a ==> final(self).has(b) == old(self).has(b),
    {
        let ghost s0 = self.members@;
        match self.find_index(a) {
            Some(_) => {},
            None => {
                self.members.push(a);
                proof {
                    assert(self.members@[s0.len() as int] == a);
                    assert forall|b: u64| b != a implies
                        self.members@.contains(b) == s0.contains(b) by {
                        if s0.contains(b) {
                            let i = choose|i: int| 0 <= i < s0.len() && s0[i] == b;
                            assert(self.members@[i] == b);
                        }
                        if self.members@.contains(b) {
                            let i = choose|i: int|
                                0 <= i < self.members@.len() && self.members@[i] == b;
                            assert(i < s0.len());
                            assert(s0[i] == b);
                        }
                    }
                    assert forall|i: int, j: int|
                        0 <= i < j < self.members@.len() implies
                        self.members@[i] != self.members@[j] by {
                        if j < s0.len() {
                            assert(s0[i] != s0[j]);
                        } else {
                            assert(self.members@[j] == a);
                            assert(s0[i] != a) by {
                                if s0[i] == a {
                                    assert(s0.contains(a));
                                }
                            }
                        }
                    }
                }
            }
        }
    }

    /// Expel `a`. Removing an address not listed changes nothing.
    pub fn remove(&mut self, a: u64)
        requires
            old(self).wf(),
        ensures
            final(self).wf(),
            !final(self).has(a),
            forall|b: u64| b != a ==> final(self).has(b) == old(self).has(b),
    {
        let ghost s0 = self.members@;
        match self.find_index(a) {
            Some(i) => {
                self.members.remove(i);
                proof {
                    let s1 = self.members@;
                    assert(s1 =~= s0.subrange(0, i as int) + s0.subrange(
                        i as int + 1,
                        s0.len() as int,
                    ));
                    assert forall|p: int, q: int|
                        0 <= p < q < s1.len() implies s1[p] != s1[q] by {
                        let p0 = if p < i as int { p } else { p + 1 };
                        let q0 = if q < i as int { q } else { q + 1 };
                        assert(s1[p] == s0[p0]);
                        assert(s1[q] == s0[q0]);
                        assert(s0[p0] != s0[q0]);
                    }
                    assert(!s1.contains(a)) by {
                        if s1.contains(a) {
                            let p = choose|p: int| 0 <= p < s1.len() && s1[p] == a;
                            let p0 = if p < i as int { p } else { p + 1 };
                            assert(s0[p0] == a);
                            assert(s0[i as int] == a);
                            assert(p0 != i as int);
                        }
                    }
                    assert forall|b: u64| b != a implies s1.contains(b) == s0.contains(b) by {
                        if s0.contains(b) {
                            let p0 = choose|p0: int| 0 <= p0 < s0.len() && s0[p0] == b;
                            assert(p0 != i as int);
                            let p = if p0 < i as int { p0 } else { p0 - 1 };
                            assert(s1[p] == b);
                        }
                        if s1.contains(b) {
                            let p = choose|p: int| 0 <= p < s1.len() && s1[p] == b;
                            let p0 = if p < i as int { p } else { p + 1 };
                            assert(s0[p0] == b);
                        }
                    }
                }
            }
            None => {},
        }
    }
}

} // verus!

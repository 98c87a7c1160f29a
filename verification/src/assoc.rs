//! Association-list view: key/value pairs held in a sequence, read by a
//! front-to-back scan. The ledger and the compliance registry both keep
//! their entries this way, with the keys pairwise distinct.

use vstd::prelude::*;

verus! {

/// The value stored under key `k`: the first pair that carries `k`,
/// scanning from the front.
pub open spec fn value_of<V>(s: Seq<(u64, V)>, k: u64) -> Option<V>
    decreases s.len(),
{
    if s.len() == 0 {
        None
    } else if s[0].0 == k {
        Some(s[0].1)
    } else {
        value_of(s.drop_first(), k)
    }
}

/// Some pair in `s` carries the key `k`.
pub open spec fn has_key<V>(s: Seq<(u64, V)>, k: u64) -> bool {
    exists|i: int| 0 <= i < s.len() && s[i].0 == k
}

/// No two pairs in `s` carry the same key.
pub open spec fn keys_unique<V>(s: Seq<(u64, V)>) -> bool {
    forall|i: int, j: int| 0 <= i < j < s.len() ==> s[i].0 != s[j].0
}

/// Dropping the first pair keeps the keys pairwise distinct.
pub proof fn lemma_keys_unique_drop<V>(s: Seq<(u64, V)>)
    requires
        keys_unique(s),
        s.len() > 0,
    ensures
        keys_unique(s.drop_first()),
{
    assert forall|i: int, j: int|
        0 <= i < j < s.drop_first().len() implies s.drop_first()[i].0 != s.drop_first()[j].0 by {
        assert(s[i + 1].0 != s[j + 1].0);
    }
}

/// A key is absent exactly when the scan finds nothing.
pub proof fn lemma_value_absent<V>(s: Seq<(u64, V)>, k: u64)
    ensures
        (value_of(s, k) is None) <==> !has_key(s, k),
    decreases s.len(),
{
    if s.len() == 0 {
    } else if s[0].0 == k {
        assert(0 <= 0 < s.len() && s[0].0 == k);
    } else {
        lemma_value_absent(s.drop_first(), k);
        if has_key(s, k) {
            let i = choose|i: int| 0 <= i < s.len() && s[i].0 == k;
            assert(s.drop_first()[i - 1].0 == k);
            assert(has_key(s.drop_first(), k));
        }
        if has_key(s.drop_first(), k) {
            let i = choose|i: int| 0 <= i < s.drop_first().len() && s.drop_first()[i].0 == k;
            assert(s[i + 1].0 == k);
            assert(has_key(s, k));
        }
    }
}

/// With distinct keys, the pair at any index is the one the scan finds.
pub proof fn lemma_value_at_index<V>(s: Seq<(u64, V)>, i: int)
    requires
        keys_unique(s),
        0 <= i < s.len(),
    ensures
        value_of(s, s[i].0) == Some(s[i].1),
    decreases s.len(),
{
    if i == 0 {
    } else {
        assert(s[0].0 != s[i].0);
        lemma_keys_unique_drop(s);
        lemma_value_at_index(s.drop_first(), i - 1);
        assert(s.drop_first()[i - 1] == s[i]);
    }
}

/// Overwriting the pair at index `i` with one that keeps its key changes
/// the value under that key and no other, and keeps the keys distinct.
pub proof fn lemma_value_update<V>(s: Seq<(u64, V)>, i: int, v: (u64, V))
    requires
        keys_unique(s),
        0 <= i < s.len(),
        v.0 == s[i].0,
    ensures
        keys_unique(s.update(i, v)),
        value_of(s.update(i, v), v.0) == Some(v.1),
        forall|k: u64| k != v.0 ==> value_of(s.update(i, v), k) == value_of(s, k),
    decreases s.len(),
{
    reveal_with_fuel(value_of, 3);
    let t = s.update(i, v);
    assert forall|p: int, q: int| 0 <= p < q < t.len() implies t[p].0 != t[q].0 by {
        assert(s[p].0 != s[q].0);
    }
    if i == 0 {
        assert(t.drop_first() =~= s.drop_first());
        assert(t[0] == v);
        assert forall|k: u64| k != v.0 implies value_of(t, k) == value_of(s, k) by {
            assert(value_of(t, k) == value_of(t.drop_first(), k));
            assert(value_of(s, k) == value_of(s.drop_first(), k));
        }
    } else {
        assert(t[0] == s[0]);
        assert(t.drop_first() =~= s.drop_first().update(i - 1, v));
        lemma_keys_unique_drop(s);
        lemma_value_update(s.drop_first(), i - 1, v);
        assert(s[0].0 != s[i].0);
        assert(value_of(t, v.0) == value_of(t.drop_first(), v.0));
        assert(value_of(t.drop_first(), v.0) == Some(v.1));
        assert forall|k: u64| k != v.0 implies value_of(t, k) == value_of(s, k) by {
            if k == s[0].0 {
                assert(value_of(t, k) == Some(t[0].1));
                assert(value_of(s, k) == Some(s[0].1));
            } else {
                assert(value_of(t, k) == value_of(t.drop_first(), k));
                assert(value_of(s, k) == value_of(s.drop_first(), k));
                assert(value_of(t.drop_first(), k) == value_of(s.drop_first(), k));
            }
        }
    }
}

/// Appending a pair under a fresh key stores its value, leaves every other
/// key's value alone, and keeps the keys distinct.
pub proof fn lemma_value_push<V>(s: Seq<(u64, V)>, e: (u64, V))
    requires
        keys_unique(s),
        !has_key(s, e.0),
    ensures
        keys_unique(s.push(e)),
        value_of(s.push(e), e.0) == Some(e.1),
        forall|k: u64| k != e.0 ==> value_of(s.push(e), k) == value_of(s, k),
    decreases s.len(),
{
    reveal_with_fuel(value_of, 3);
    let t = s.push(e);
    assert forall|p: int, q: int| 0 <= p < q < t.len() implies t[p].0 != t[q].0 by {
        if q == s.len() {
            assert(t[q] == e);
            assert(s[p].0 != e.0);
        } else {
            assert(s[p].0 != s[q].0);
        }
    }
    if s.len() == 0 {
        assert(t[0] == e);
        assert(t.drop_first() =~= Seq::<(u64, V)>::empty());
        assert forall|k: u64| k != e.0 implies value_of(t, k) == value_of(s, k) by {
            assert(value_of(t, k) == value_of(t.drop_first(), k));
        }
    } else {
        assert(t[0] == s[0]);
        assert(t.drop_first() =~= s.drop_first().push(e));
        lemma_keys_unique_drop(s);
        assert(!has_key(s.drop_first(), e.0)) by {
            if has_key(s.drop_first(), e.0) {
                let i = choose|i: int|
                    0 <= i < s.drop_first().len() && s.drop_first()[i].0 == e.0;
                assert(s[i + 1].0 == e.0);
            }
        }
        lemma_value_push(s.drop_first(), e);
        assert(s[0].0 != e.0) by {
            assert(0 <= 0 < s.len() && s[0].0 == s[0].0);
        }
        assert(value_of(t, e.0) == value_of(t.drop_first(), e.0));
        assert(value_of(t.drop_first(), e.0) == Some(e.1));
        assert forall|k: u64| k != e.0 implies value_of(t, k) == value_of(s, k) by {
            if k == s[0].0 {
                assert(value_of(t, k) == Some(t[0].1));
                assert(value_of(s, k) == Some(s[0].1));
            } else {
                assert(value_of(t, k) == value_of(t.drop_first(), k));
                assert(value_of(s, k) == value_of(s.drop_first(), k));
                assert(value_of(t.drop_first(), k) == value_of(s.drop_first(), k));
            }
        }
    }
}

} // verus!

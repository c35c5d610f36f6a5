//! Association maps from `u128` keys to values, used for the registries that
//! track which confidential variable currently represents each entity.
//!
//! The host ledger runtime persists contract state between invocations, so
//! these maps only ever hold the entries of a single contract instance; a
//! vector of entries with pairwise distinct keys is enough, and its `Map`
//! view keeps every contract-level contract in terms of mathematical maps.

use vstd::prelude::*;

verus! {

/// A map from `u128` keys to values of type `V`, backed by a vector of
/// entries whose keys never repeat.
pub struct KeyMap<V> {
    entries: Vec<(u128, V)>,
}

impl<V> KeyMap<V> {
    /// Well-formed: no two entries share a key.
    pub closed spec fn wf(&self) -> bool {
        forall|i: int, j: int|
            0 <= i < j < self.entries@.len() ==> (#[trigger] self.entries@[i]).0 != (
            #[trigger] self.entries@[j]).0
    }

    /// Some entry holds the key `k`.
    pub closed spec fn spec_contains_key(&self, k: u128) -> bool {
        exists|i: int| 0 <= i < self.entries@.len() && (#[trigger] self.entries@[i]).0 == k
    }

    /// The value stored beside the key `k`.
    pub closed spec fn spec_value(&self, k: u128) -> V {
        let i = choose|i: int|
            0 <= i < self.entries@.len() && (#[trigger] self.entries@[i]).0 == k;
        self.entries@[i].1
    }

    /// An empty map.
    pub fn new() -> (m: Self)
        ensures
            m.wf(),
            m@ == Map::<u128, V>::empty(),
    {
        let m = KeyMap { entries: Vec::new() };
        proof {
            assert(m@ =~= Map::<u128, V>::empty());
        }
        m
    }

    /// Whether the map holds an entry for `k`.
    pub fn contains_key(&self, k: u128) -> (b: bool)
        ensures
            b == self@.contains_key(k),
    {
        let mut i: usize = 0;
        while i < self.entries.len()
            invariant
                0 <= i <= self.entries@.len(),
                forall|j: int| 0 <= j < i ==> (#[trigger] self.entries@[j]).0 != k,
            decreases self.entries@.len() - i,
        {
            if self.entries[i].0 == k {
                return true;
            }
            i = i + 1;
        }
        false
    }

    /// The value for `k`, if any.
    pub fn get(&self, k: u128) -> (r: Option<&V>)
        requires
            self.wf(),
        ensures
            match r {
                Some(v) => self@.contains_key(k) && *v == self@[k],
                None => !self@.contains_key(k),
            },
    {
        let mut i: usize = 0;
        while i < self.entries.len()
            invariant
                0 <= i <= self.entries@.len(),
                forall|j: int| 0 <= j < i ==> (#[trigger] self.entries@[j]).0 != k,
            decreases self.entries@.len() - i,
        {
            if self.entries[i].0 == k {
                proof {
                    let w = choose|i: int|
                        0 <= i < self.entries@.len() && (#[trigger] self.entries@[i]).0 == k;
                    assert(self.entries@[i as int].0 == k);
                    assert(w == i as int);
                }
                return Some(&self.entries[i].1);
            }
            i = i + 1;
        }
        None
    }

    /// Insert `v` under `k`, replacing any previous value for `k`.
    pub fn insert(&mut self, k: u128, v: V)
        requires
            old(self).wf(),
        ensures
            final(self).wf(),
            final(self)@ == old(self)@.insert(k, v),
    {
        let ghost pre = *self;
        let mut i: usize = 0;
        while i < self.entries.len()
            invariant
                0 <= i <= self.entries@.len(),
                *self == pre,
                forall|j: int| 0 <= j < i ==> (#[trigger] self.entries@[j]).0 != k,
            decreases self.entries@.len() - i,
        {
            if self.entries[i].0 == k {
                self.entries[i] = (k, v);
                proof {
                    lemma_view_after_update(pre, *self, i as int, k, v);
                }
                return ;
            }
            i = i + 1;
        }
        self.entries.push((k, v));
        proof {
            lemma_view_after_push(pre, *self, k, v);
        }
    }
}

/// Replacing the entry at an index that already holds `k` updates the view at
/// `k` and nothing else.
proof fn lemma_view_after_update<V>(pre: KeyMap<V>, post: KeyMap<V>, i: int, k: u128, v: V)
    requires
        pre.wf(),
        0 <= i < pre.entries@.len(),
        pre.entries@[i].0 == k,
        post.entries@ == pre.entries@.update(i, (k, v)),
    ensures
        post.wf(),
        post@ == pre@.insert(k, v),
{
    assert(forall|j: int|
        0 <= j < post.entries@.len() ==> (#[trigger] post.entries@[j]).0 == pre.entries@[j].0);
    assert(post.wf());
    assert forall|k2: u128| pre.spec_contains_key(k2) implies post.spec_contains_key(k2) by {
        let w = choose|i: int|
            0 <= i < pre.entries@.len() && (#[trigger] pre.entries@[i]).0 == k2;
        assert(post.entries@[w].0 == k2);
    }
    assert forall|k2: u128| post.spec_contains_key(k2) implies pre.spec_contains_key(k2) by {
        let w = choose|i: int|
            0 <= i < post.entries@.len() && (#[trigger] post.entries@[i]).0 == k2;
        assert(pre.entries@[w].0 == k2);
    }
    assert(pre.spec_contains_key(k));
    assert forall|k2: u128| post.spec_contains_key(k2) implies post.spec_value(k2)
        == pre@.insert(k, v)[k2] by {
        let w = choose|i: int|
            0 <= i < post.entries@.len() && (#[trigger] post.entries@[i]).0 == k2;
        assert(post.entries@[w].0 == k2);
        if k2 == k {
            assert(w == i);
            assert(post.spec_value(k2) == v);
        } else {
            assert(w != i);
            let w2 = choose|i: int|
                0 <= i < pre.entries@.len() && (#[trigger] pre.entries@[i]).0 == k2;
            assert(pre.entries@[w].0 == k2);
            assert(w2 == w);
            assert(post.spec_value(k2) == pre.spec_value(k2));
        }
    }
    assert(post@ =~= pre@.insert(k, v));
}

/// Appending an entry with a fresh key adds `k` to the view and leaves every
/// other key untouched.
proof fn lemma_view_after_push<V>(pre: KeyMap<V>, post: KeyMap<V>, k: u128, v: V)
    requires
        pre.wf(),
        !pre.spec_contains_key(k),
        post.entries@ == pre.entries@.push((k, v)),
    ensures
        post.wf(),
        post@ == pre@.insert(k, v),
{
    let n = pre.entries@.len() as int;
    assert(forall|j: int| 0 <= j < n ==> (#[trigger] post.entries@[j]) == pre.entries@[j]);
    assert(post.entries@[n] == (k, v));
    assert forall|i2: int, j2: int|
        0 <= i2 < j2 < post.entries@.len() implies (#[trigger] post.entries@[i2]).0 != (
        #[trigger] post.entries@[j2]).0 by {
        if j2 == n {
            assert(post.entries@[i2].0 == pre.entries@[i2].0);
        }
    }
    assert forall|k2: u128| pre.spec_contains_key(k2) implies post.spec_contains_key(k2) by {
        let w = choose|i: int|
            0 <= i < pre.entries@.len() && (#[trigger] pre.entries@[i]).0 == k2;
        assert(post.entries@[w].0 == k2);
    }
    assert(post.spec_contains_key(k));
    assert forall|k2: u128| post.spec_contains_key(k2) && k2 != k implies pre.spec_contains_key(
        k2) by {
        let w = choose|i: int|
            0 <= i < post.entries@.len() && (#[trigger] post.entries@[i]).0 == k2;
        assert(w != n);
        assert(pre.entries@[w].0 == k2);
    }
    assert forall|k2: u128| post.spec_contains_key(k2) implies post.spec_value(k2)
        == pre@.insert(k, v)[k2] by {
        let w = choose|i: int|
            0 <= i < post.entries@.len() && (#[trigger] post.entries@[i]).0 == k2;
        assert(post.entries@[w].0 == k2);
        if k2 == k {
            assert(w == n);
            assert(post.spec_value(k2) == v);
        } else {
            assert(w != n);
            let w2 = choose|i: int|
                0 <= i < pre.entries@.len() && (#[trigger] pre.entries@[i]).0 == k2;
            assert(pre.entries@[w].0 == k2);
            assert(w2 == w);
            assert(post.spec_value(k2) == pre.spec_value(k2));
        }
    }
    assert(post@ =~= pre@.insert(k, v));
}

impl<V> View for KeyMap<V> {
    type V = Map<u128, V>;

    closed spec fn view(&self) -> Map<u128, V> {
        Map::new(|k: u128| self.spec_contains_key(k), |k: u128| self.spec_value(k))
    }
}

} // verus!

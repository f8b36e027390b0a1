//! Correlation table: request-id keyed entries with distinct keys.
//!
//! The client keeps one mapping pending request ids to result channels;
//! the server keeps one mapping in-flight request ids to handler tasks.
//! The entry type is opaque to this module.

use vstd::prelude::*;

verus! {

/// Whether a key occurs among the entries.
pub open spec fn has_key<V>(s: Seq<(u128, V)>, id: u128) -> bool {
    exists|i: int| 0 <= i < s.len() && s[i].0 == id
}

/// The index of a key among the entries; meaningful when the key occurs
/// and the keys are distinct.
pub open spec fn key_idx<V>(s: Seq<(u128, V)>, id: u128) -> int {
    choose|i: int| 0 <= i < s.len() && s[i].0 == id
}

/// No key occurs twice.
pub open spec fn distinct_keys<V>(s: Seq<(u128, V)>) -> bool {
    forall|i: int, j: int| 0 <= i < j < s.len() ==> s[i].0 != s[j].0
}

/// With distinct keys, `key_idx` names the one index that holds the key.
pub proof fn lemma_key_idx<V>(s: Seq<(u128, V)>, id: u128, i: int)
    requires
        distinct_keys(s),
        0 <= i < s.len(),
        s[i].0 == id,
    ensures
        key_idx(s, id) == i,
        has_key(s, id),
{
    assert(has_key(s, id));
    let k = key_idx(s, id);
    assert(0 <= k < s.len() && s[k].0 == id);
    if k != i {
        if k < i {
            assert(s[k].0 != s[i].0);
        } else {
            assert(s[i].0 != s[k].0);
        }
    }
}

/// A table of entries keyed by 128-bit request ids, with distinct keys.
pub struct IdTable<V> {
    entries: Vec<(u128, V)>,
}

impl<V> View for IdTable<V> {
    type V = Seq<(u128, V)>;

    closed spec fn view(&self) -> Seq<(u128, V)> {
        self.entries@
    }
}

impl<V> IdTable<V> {
    /// The keys are distinct; every operation keeps this.
    pub open spec fn wf(&self) -> bool {
        distinct_keys(self@)
    }

    /// An empty table.
    pub fn new() -> (r: Self)
        ensures
            r@ == Seq::<(u128, V)>::empty(),
            r.wf(),
    {
        IdTable { entries: Vec::new() }
    }

    /// How many entries the table holds.
    pub fn len(&self) -> (n: usize)
        ensures
            n == self@.len(),
    {
        self.entries.len()
    }

    /// Whether an entry with this id is present.
    pub fn contains(&self, id: u128) -> (b: bool)
        ensures
            b == has_key(self@, id),
    {
        let n = self.entries.len();
        for i in 0..n
            invariant
                n == self@.len(),
                forall|j: int| 0 <= j < i ==> self@[j].0 != id,
        {
            if self.entries[i].0 == id {
                return true;
            }
        }
        false
    }

    /// The id of the entry at an index; lets a caller walk the table.
    pub fn key_at(&self, i: usize) -> (id: u128)
        requires
            i < self@.len(),
        ensures
            id == self@[i as int].0,
    {
        self.entries[i].0
    }

    /// Borrows the value of the entry at an index.
    pub fn value_at(&self, i: usize) -> (v: &V)
        requires
            i < self@.len(),
        ensures
            *v == self@[i as int].1,
    {
        &self.entries[i].1
    }

    /// Binds `id` to `v`: replaces the entry holding `id`, or appends one.
    pub fn insert(&mut self, id: u128, v: V)
        requires
            old(self).wf(),
        ensures
            final(self).wf(),
            !has_key(old(self)@, id) ==> final(self)@ == old(self)@.push((id, v)),
            has_key(old(self)@, id) ==> final(self)@ == old(self)@.remove(
                key_idx(old(self)@, id),
            ).push((id, v)),
            has_key(final(self)@, id),
    {
        let n = self.entries.len();
        for i in 0..n
            invariant
                old(self) == self,
                n == self@.len(),
                old(self).wf(),
                forall|j: int| 0 <= j < i ==> self@[j].0 != id,
        {
            if self.entries[i].0 == id {
                proof {
                    lemma_key_idx(self@, id, i as int);
                }
                let _ = self.entries.remove(i);
                self.entries.push((id, v));
                proof {
                    let s = old(self)@.remove(i as int);
                    assert forall|a: int, b: int| 0 <= a < b < self@.len() implies self@[a].0
                        != self@[b].0 by {
                        if b < s.len() {
                            assert(self@[a] == s[a] && self@[b] == s[b]);
                        } else {
                            assert(self@[b].0 == id && self@[a] == s[a]);
                        }
                    }
                    assert(self@[self@.len() - 1].0 == id);
                }
                return ;
            }
        }
        self.entries.push((id, v));
        proof {
            assert(self@[self@.len() - 1].0 == id);
            assert forall|a: int, b: int| 0 <= a < b < self@.len() implies self@[a].0 != self@[b].0
                by {
                if b < old(self)@.len() {
                    assert(self@[a] == old(self)@[a] && self@[b] == old(self)@[b]);
                }
            }
        }
    }

    /// Removes and returns the entry holding `id`, if present.
    pub fn remove(&mut self, id: u128) -> (r: Option<V>)
        requires
            old(self).wf(),
        ensures
            final(self).wf(),
            !has_key(old(self)@, id) ==> r is None && final(self)@ == old(self)@,
            has_key(old(self)@, id) ==> r == Some(old(self)@[key_idx(old(self)@, id)].1)
                && final(self)@ == old(self)@.remove(key_idx(old(self)@, id)),
            !has_key(final(self)@, id),
    {
        let n = self.entries.len();
        for i in 0..n
            invariant
                old(self) == self,
                n == self@.len(),
                old(self).wf(),
                forall|j: int| 0 <= j < i ==> self@[j].0 != id,
        {
            if self.entries[i].0 == id {
                proof {
                    lemma_key_idx(self@, id, i as int);
                }
                let e = self.entries.remove(i);
                proof {
                    let s = old(self)@;
                    assert forall|a: int, b: int| 0 <= a < b < self@.len() implies self@[a].0
                        != self@[b].0 by {
                        let aa = if a < i as int { a } else { a + 1 };
                        let bb = if b < i as int { b } else { b + 1 };
                        assert(self@[a] == s[aa] && self@[b] == s[bb]);
                    }
                    assert forall|j: int| 0 <= j < self@.len() implies self@[j].0 != id by {
                        let jj = if j < i as int { j } else { j + 1 };
                        assert(self@[j] == s[jj]);
                    }
                }
                return Some(e.1);
            }
        }
        None
    }
}

} // verus!

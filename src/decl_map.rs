//! An insertion-only map from names to declaration records in which the
//! last write for a name wins.

use vstd::prelude::*;
use crate::names::same_chars;
use crate::deep_copy::DeepCopy;

verus! {

pub struct DeclMap<V> {
    entries: Vec<(String, V)>,
}

/// The map that a sequence of writes leaves: each write replaces what an
/// earlier one stored under the same name.
pub open spec fn written<V: View>(entries: Seq<(String, V)>) -> Map<Seq<char>, V::V>
    decreases entries.len(),
{
    if entries.len() == 0 {
        Map::empty()
    } else {
        written(entries.drop_last()).insert(entries.last().0@, entries.last().1@)
    }
}

impl<V: View> View for DeclMap<V> {
    type V = Map<Seq<char>, V::V>;

    closed spec fn view(&self) -> Map<Seq<char>, V::V> {
        written(self.entries@)
    }
}

/// Writes after the last one under `k` leave what is stored under `k` alone.
proof fn lemma_written_suffix<V: View>(entries: Seq<(String, V)>, i: int, k: Seq<char>)
    requires
        0 <= i <= entries.len(),
        forall|j: int| i <= j < entries.len() ==> entries[j].0@ != k,
    ensures
        written(entries).contains_key(k) == written(entries.subrange(0, i)).contains_key(k),
        written(entries).contains_key(k) ==> written(entries)[k] == written(entries.subrange(0, i))[k],
    decreases entries.len() - i,
{
    if i < entries.len() {
        let e = entries.subrange(0, entries.len() - 1);
        assert(entries.drop_last() == e);
        assert forall|j: int| i <= j < e.len() implies e[j].0@ != k by {
            assert(e[j] == entries[j]);
        }
        lemma_written_suffix(e, i, k);
        assert(e.subrange(0, i) == entries.subrange(0, i));
    } else {
        assert(entries.subrange(0, i) == entries);
    }
}

impl<V: View> DeclMap<V> {
    pub fn new() -> (r: DeclMap<V>)
        ensures
            r@ == Map::<Seq<char>, V::V>::empty(),
    {
        DeclMap { entries: Vec::new() }
    }

    /// Stores `v` under `k`, replacing what was stored there.
    pub fn insert(&mut self, k: String, v: V)
        ensures
            final(self)@ == old(self)@.insert(k@, v@),
    {
        let ghost before = self.entries@;
        self.entries.push((k, v));
        assert(self.entries@.drop_last() == before);
    }

    /// What is stored under `k`.
    pub fn get(&self, k: &str) -> (r: Option<&V>)
        ensures
            match r {
                Some(v) => self@.contains_key(k@) && self@[k@] == v@,
                None => !self@.contains_key(k@),
            },
    {
        let mut i: usize = self.entries.len();
        while i > 0
            invariant
                i <= self.entries@.len(),
                forall|j: int| i <= j < self.entries@.len() ==> self.entries@[j].0@ != k@,
            decreases i,
        {
            if same_chars(self.entries[i - 1].0.as_str(), k) {
                let ghost es = self.entries@;
                proof {
                    lemma_written_suffix(es, i as int, k@);
                    assert(es.subrange(0, i as int).drop_last() == es.subrange(0, i - 1));
                }
                return Some(&self.entries[i - 1].1);
            }
            i = i - 1;
        }
        proof {
            lemma_written_suffix(self.entries@, 0, k@);
        }
        None
    }
}

impl<V: DeepCopy> DeepCopy for DeclMap<V> {
    fn deep_copy(&self) -> (r: DeclMap<V>) {
        let mut out: Vec<(String, V)> = Vec::new();
        let mut i: usize = 0;
        while i < self.entries.len()
            invariant
                i <= self.entries@.len(),
                written(out@) == written(self.entries@.subrange(0, i as int)),
            decreases self.entries@.len() - i,
        {
            let ghost before = out@;
            let k = self.entries[i].0.clone();
            let v = self.entries[i].1.deep_copy();
            out.push((k, v));
            assert(out@.drop_last() == before);
            assert(self.entries@.subrange(0, i + 1).drop_last() == self.entries@.subrange(0, i as int));
            i = i + 1;
        }
        assert(self.entries@.subrange(0, i as int) == self.entries@);
        DeclMap { entries: out }
    }
}

} // verus!

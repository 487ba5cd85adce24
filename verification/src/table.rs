//! A small association list keyed by byte strings. The last entry under a
//! key is the one that counts.

use crate::bytes::same_bytes;
use vstd::prelude::*;

verus! {

/// The map that a list of entries stands for.
pub open spec fn model<V>(entries: Seq<(Vec<u8>, V)>) -> Map<Seq<u8>, V>
    decreases entries.len(),
{
    if entries.len() == 0 {
        Map::empty()
    } else {
        model(entries.drop_last()).insert(entries.last().0@, entries.last().1)
    }
}

proof fn lemma_absent<V>(entries: Seq<(Vec<u8>, V)>, key: Seq<u8>)
    requires
        forall|i: int| 0 <= i < entries.len() ==> entries[i].0@ != key,
    ensures
        !model(entries).contains_key(key),
    decreases entries.len(),
{
    if entries.len() > 0 {
        lemma_absent(entries.drop_last(), key);
    }
}

proof fn lemma_remove_entry<V>(entries: Seq<(Vec<u8>, V)>, i: int)
    requires
        0 <= i < entries.len(),
    ensures
        model(entries.remove(i)).remove(entries[i].0@) == model(entries).remove(entries[i].0@),
    decreases entries.len(),
{
    let key = entries[i].0@;
    let front = entries.drop_last();
    if i == entries.len() - 1 {
        assert(entries.remove(i) =~= front);
        assert(model(entries).remove(key) =~= model(front).remove(key));
    } else {
        let last = entries.last();
        lemma_remove_entry(front, i);
        assert(entries.remove(i).drop_last() =~= front.remove(i));
        assert(entries.remove(i).last() == last);
        assert(model(entries.remove(i)).remove(key) =~= model(front.remove(i)).remove(key).insert(
            last.0@,
            last.1,
        ).remove(key));
        assert(model(entries).remove(key) =~= model(front).remove(key).insert(
            last.0@,
            last.1,
        ).remove(key));
    }
}

/// An association list from byte strings to values.
pub struct Table<V> {
    entries: Vec<(Vec<u8>, V)>,
}

impl<V> View for Table<V> {
    type V = Map<Seq<u8>, V>;

    closed spec fn view(&self) -> Map<Seq<u8>, V> {
        model(self.entries@)
    }
}

impl<V> Table<V> {
    /// A table without entries.
    pub fn new() -> (table: Table<V>)
        ensures
            table@ == Map::<Seq<u8>, V>::empty(),
    {
        Table { entries: Vec::new() }
    }

    /// The value under `key`, if there is one.
    pub fn find(&self, key: &[u8]) -> (r: Option<&V>)
        ensures
            r is Some <==> self@.contains_key(key@),
            r is Some ==> *r.unwrap() == self@[key@],
    {
        let mut found: Option<usize> = None;
        let mut i: usize = 0;
        assert(self.entries@.take(0) =~= Seq::empty());
        while i < self.entries.len()
            invariant
                i <= self.entries@.len(),
                found is Some <==> model(self.entries@.take(i as int)).contains_key(key@),
                found is Some ==> found.unwrap() < i && self.entries@[found.unwrap() as int].1
                    == model(self.entries@.take(i as int))[key@],
            decreases self.entries@.len() - i,
        {
            assert(self.entries@.take(i + 1).drop_last() =~= self.entries@.take(i as int));
            if same_bytes(self.entries[i].0.as_slice(), key) {
                found = Some(i);
            }
            i += 1;
        }
        assert(self.entries@.take(i as int) =~= self.entries@);
        match found {
            Some(j) => Some(&self.entries[j].1),
            None => None,
        }
    }

    /// Takes the entries under `key` out.
    pub fn remove(&mut self, key: &[u8])
        ensures
            final(self)@ == old(self)@.remove(key@),
    {
        let mut i: usize = 0;
        while i < self.entries.len()
            invariant
                i <= self.entries@.len(),
                model(self.entries@).remove(key@) == old(self)@.remove(key@),
                forall|j: int| 0 <= j < i ==> self.entries@[j].0@ != key@,
            decreases self.entries@.len() - i,
        {
            if same_bytes(self.entries[i].0.as_slice(), key) {
                proof {
                    lemma_remove_entry(self.entries@, i as int);
                }
                self.entries.remove(i);
            } else {
                i += 1;
            }
        }
        proof {
            lemma_absent(self.entries@, key@);
            assert(model(self.entries@) =~= model(self.entries@).remove(key@));
        }
    }

    /// Puts `value` under `key`, in place of what was there.
    pub fn insert(&mut self, key: Vec<u8>, value: V)
        ensures
            final(self)@ == old(self)@.insert(key@, value),
    {
        self.remove(key.as_slice());
        let ghost before = self.entries@;
        self.entries.push((key, value));
        assert(self.entries@.drop_last() =~= before);
        assert(self@ =~= old(self)@.insert(key@, value));
    }
}

} // verus!

//! An append-only association table: the latest record of a key is the one
//! that counts.

use vstd::prelude::*;

verus! {

/// A type whose values can be told apart at run time.
pub trait Key: Sized {
    /// Whether `self` and `other` are the same key.
    fn same(&self, other: &Self) -> (r: bool)
        ensures
            r == (*self == *other),
    ;
}

impl Key for u64 {
    fn same(&self, other: &Self) -> (r: bool) {
        *self == *other
    }
}

/// Records in the order in which they were written.
pub struct Table<K, V> {
    records: Vec<(K, V)>,
}

/// The map that a sequence of records stands for: later records replace
/// earlier ones of the same key.
pub open spec fn latest<K, V>(records: Seq<(K, V)>) -> Map<K, V>
    decreases records.len(),
{
    if records.len() == 0 {
        Map::empty()
    } else {
        latest(records.drop_last()).insert(records.last().0, records.last().1)
    }
}

/// A key that no record from `from` on carries has in `records` the value
/// that it has in the records before `from`.
pub proof fn lemma_latest_skips<K, V>(records: Seq<(K, V)>, from: int, key: K)
    requires
        0 <= from <= records.len(),
        forall|j: int| from <= j < records.len() ==> records[j].0 != key,
    ensures
        latest(records).contains_key(key) == latest(records.take(from)).contains_key(key),
        latest(records).contains_key(key) ==> latest(records)[key] == latest(
            records.take(from),
        )[key],
    decreases records.len(),
{
    if from == records.len() {
        assert(records.take(from) =~= records);
    } else {
        assert(records.drop_last().take(from) =~= records.take(from));
        lemma_latest_skips(records.drop_last(), from, key);
    }
}

impl<K, V> View for Table<K, V> {
    type V = Map<K, V>;

    closed spec fn view(&self) -> Map<K, V> {
        latest(self.records@)
    }
}

impl<K: Key, V> Table<K, V> {
    /// A table without records.
    pub fn new() -> (r: Self)
        ensures
            r@ == Map::<K, V>::empty(),
    {
        Table { records: Vec::new() }
    }

    /// Writes a record; it replaces what `key` had before.
    pub fn insert(&mut self, key: K, value: V)
        ensures
            final(self)@ == old(self)@.insert(key, value),
    {
        let ghost before = self.records@;
        self.records.push((key, value));
        assert(self.records@.drop_last() =~= before);
    }

    /// The value of `key`, if the table has one.
    pub fn get(&self, key: &K) -> (r: Option<&V>)
        ensures
            r == (if self@.contains_key(*key) {
                Some(&self@[*key])
            } else {
                None
            }),
    {
        let mut i: usize = self.records.len();
        while i > 0
            invariant
                i <= self.records@.len(),
                forall|j: int| i <= j < self.records@.len() ==> self.records@[j].0 != *key,
            decreases i,
        {
            i = i - 1;
            if self.records[i].0.same(key) {
                proof {
                    lemma_latest_skips(self.records@, i as int + 1, *key);
                    assert(self.records@.take(i as int + 1).drop_last() =~= self.records@.take(
                        i as int,
                    ));
                }
                return Some(&self.records[i].1);
            }
        }
        proof {
            lemma_latest_skips(self.records@, 0, *key);
            assert(self.records@.take(0) =~= Seq::<(K, V)>::empty());
        }
        None
    }
}

} // verus!

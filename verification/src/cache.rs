//! The memo table that wraps expensive, idempotent script queries.
//!
//! A cache holds `(key, value)` pairs keyed by an opaque composite string
//! (for example game name plus edition).  Key equality defines identity;
//! there is no expiry and no invalidation inside one process lifetime.
//! Lookups scan linearly: per-driver populations stay small (editions
//! times query kinds), so a table beats a hash map here.  The table grows
//! by one entry per fresh key and never holds two entries for one key.

use vstd::prelude::*;

verus! {

/// A bounded associative memo table with string keys.
#[derive(Debug)]
pub struct Cache<V> {
    entries: Vec<(String, V)>,
}

/// The map a list of cache entries denotes.
pub open spec fn cache_model<V>(entries: Seq<(String, V)>) -> Map<Seq<char>, V>
    decreases entries.len(),
{
    if entries.len() == 0 {
        Map::empty()
    } else {
        cache_model(entries.drop_last()).insert(entries.last().0@, entries.last().1)
    }
}

/// A first match at position `i` among unique keys decides the model.
pub(crate) proof fn lemma_cache_model_at<V>(entries: Seq<(String, V)>, i: int)
    requires
        forall|p: int, q: int|
            0 <= p < q < entries.len() ==> (#[trigger] entries[p]).0@ != (#[trigger] entries[q]).0@,
        0 <= i < entries.len(),
    ensures
        cache_model(entries).contains_key(entries[i].0@),
        cache_model(entries)[entries[i].0@] == entries[i].1,
    decreases entries.len(),
{
    if i == entries.len() - 1 {
    } else {
        lemma_cache_model_at(entries.drop_last(), i);
        assert(entries.drop_last()[i] == entries[i]);
        assert(entries[i].0@ != entries.last().0@);
    }
}

/// A key under no entry is not in the model.
pub(crate) proof fn lemma_cache_model_miss<V>(entries: Seq<(String, V)>, key: Seq<char>)
    requires
        forall|j: int| 0 <= j < entries.len() ==> (#[trigger] entries[j]).0@ != key,
    ensures
        !cache_model(entries).contains_key(key),
    decreases entries.len(),
{
    if entries.len() > 0 {
        lemma_cache_model_miss(entries.drop_last(), key);
    }
}

/// Updating the value under position `i` rewrites the model at that key.
pub(crate) proof fn lemma_cache_model_update<V>(entries: Seq<(String, V)>, i: int, k: String, v: V)
    requires
        forall|p: int, q: int|
            0 <= p < q < entries.len() ==> (#[trigger] entries[p]).0@ != (#[trigger] entries[q]).0@,
        0 <= i < entries.len(),
        k@ == entries[i].0@,
    ensures
        cache_model(entries.update(i, (k, v))) =~= cache_model(entries).insert(entries[i].0@, v),
    decreases entries.len(),
{
    let updated = entries.update(i, (k, v));
    if i == entries.len() - 1 {
        assert(updated.drop_last() =~= entries.drop_last());
        assert(updated.last() == (k, v));
    } else {
        lemma_cache_model_update(entries.drop_last(), i, k, v);
        assert(updated.drop_last() =~= entries.drop_last().update(i, (k, v)));
        assert(updated.last() == entries.last());
        assert(entries[i].0@ != entries.last().0@);
    }
}

impl<V> Cache<V> {
    /// Keys are unique: at most one entry per key.
    pub closed spec fn wf(self) -> bool {
        forall|p: int, q: int|
            0 <= p < q < self.entries@.len() ==> (#[trigger] self.entries@[p]).0@ != (
            #[trigger] self.entries@[q]).0@
    }

    /// The key-to-value map this cache holds.
    pub closed spec fn model(self) -> Map<Seq<char>, V> {
        cache_model(self.entries@)
    }

    /// An empty cache.
    pub fn new() -> (r: Cache<V>)
        ensures
            r.wf(),
            r.model() == Map::<Seq<char>, V>::empty(),
    {
        Cache { entries: Vec::new() }
    }

    /// The value cached under `key`, if any.
    pub fn get(&self, key: &String) -> (r: Option<&V>)
        requires
            self.wf(),
        ensures
            match r {
                Some(v) => self.model().contains_key(key@) && *v == self.model()[key@],
                None => !self.model().contains_key(key@),
            },
    {
        for i in 0..self.entries.len()
            invariant
                self.wf(),
                forall|j: int| 0 <= j < i ==> (#[trigger] self.entries@[j]).0@ != key@,
        {
            if self.entries[i].0 == *key {
                proof {
                    lemma_cache_model_at(self.entries@, i as int);
                }
                return Some(&self.entries[i].1);
            }
        }
        proof {
            lemma_cache_model_miss(self.entries@, key@);
        }
        None
    }

    /// Store `value` under `key`: overwrite the entry holding an equal
    /// key, else append a fresh one.  No duplicate entry ever arises.
    pub fn set(&mut self, key: String, value: V)
        requires
            old(self).wf(),
        ensures
            final(self).wf(),
            final(self).model() =~= old(self).model().insert(key@, value),
    {
        let n = self.entries.len();
        for i in 0..n
            invariant
                n == self.entries.len(),
                self.wf(),
                self == old(self),
                forall|j: int| 0 <= j < i ==> (#[trigger] self.entries@[j]).0@ != key@,
        {
            if self.entries[i].0 == *&key {
                proof {
                    lemma_cache_model_update(self.entries@, i as int, key, value);
                }
                self.entries.set(i, (key, value));
                proof {
                    assert forall|p: int, q: int|
                        0 <= p < q < self.entries@.len() implies (#[trigger] self.entries@[p]).0@
                        != (#[trigger] self.entries@[q]).0@ by {
                        assert(old(self).entries@[p].0@ != old(self).entries@[q].0@);
                    }
                }
                return ;
            }
        }
        proof {
            lemma_cache_model_miss(self.entries@, key@);
        }
        let ghost before = self.entries@;
        self.entries.push((key, value));
        proof {
            assert(self.entries@.drop_last() =~= before);
            assert forall|p: int, q: int|
                0 <= p < q < self.entries@.len() implies (#[trigger] self.entries@[p]).0@ != (
            #[trigger] self.entries@[q]).0@ by {
                if q < before.len() {
                    assert(before[p].0@ != before[q].0@);
                } else {
                    assert(before[p].0@ != self.entries@[q].0@);
                }
            }
        }
    }
}

/// Law: storing under a key twice keeps only the second value; storing
/// never duplicates a key, so a later lookup sees exactly the last store.
pub proof fn lemma_cache_overwrite<V>(m: Map<Seq<char>, V>, k: Seq<char>, v1: V, v2: V)
    ensures
        m.insert(k, v1).insert(k, v2) =~= m.insert(k, v2),
        m.insert(k, v1).insert(k, v2)[k] == v2,
{
}

} // verus!

//! The module cache: a memo table from canonical keys to module values. Each
//! key is stored at most once and never replaced, so a module is loaded at
//! most once for as long as the cache lives.

use vstd::prelude::*;
use crate::text::{chars_eq, to_chars};

verus! {

/// One loaded module: its canonical key and the value that evaluating it
/// gave.
pub struct CachedModule<V> {
    pub key: String,
    pub value: V,
}

/// A memo table of loaded modules, keyed by canonical path.
pub struct ModuleCache<V> {
    entries: Vec<CachedModule<V>>,
}

/// No two of the entries share a key.
pub open spec fn distinct_keys<V>(entries: Seq<CachedModule<V>>) -> bool {
    forall|i: int, j: int| 0 <= i < j < entries.len() ==> entries[i].key@ != entries[j].key@
}

/// Whether one of the entries has the key `key`.
pub open spec fn holds_key<V>(entries: Seq<CachedModule<V>>, key: Seq<char>) -> bool {
    exists|i: int| 0 <= i < entries.len() && (#[trigger] entries[i]).key@ == key
}

/// An index at which `key` is stored.
pub open spec fn slot_of<V>(entries: Seq<CachedModule<V>>, key: Seq<char>) -> int {
    choose|i: int| 0 <= i < entries.len() && (#[trigger] entries[i]).key@ == key
}

/// The keys of the entries.
pub open spec fn key_set<V>(entries: Seq<CachedModule<V>>) -> Set<Seq<char>> {
    Set::new(|key: Seq<char>| holds_key(entries, key))
}

/// Entries with distinct keys have as many keys as there are entries.
pub proof fn lemma_keys_count<V>(entries: Seq<CachedModule<V>>)
    requires
        distinct_keys(entries),
    ensures
        key_set(entries).finite(),
        key_set(entries).len() == entries.len(),
    decreases entries.len(),
{
    if entries.len() == 0 {
        assert(key_set(entries) =~= Set::<Seq<char>>::empty());
    } else {
        let earlier = entries.drop_last();
        let last = entries.last();
        assert forall|i: int, j: int| 0 <= i < j < earlier.len() implies earlier[i].key@
            != earlier[j].key@ by {
            assert(earlier[i] == entries[i]);
            assert(earlier[j] == entries[j]);
        }
        lemma_keys_count(earlier);
        assert(!key_set(earlier).contains(last.key@)) by {
            if holds_key(earlier, last.key@) {
                let i = slot_of(earlier, last.key@);
                assert(earlier[i] == entries[i]);
                assert(entries[entries.len() - 1] == last);
            }
        }
        assert(key_set(entries) =~= key_set(earlier).insert(last.key@)) by {
            assert forall|key: Seq<char>| key_set(entries).contains(key) <==> key_set(
                earlier,
            ).insert(last.key@).contains(key) by {
                if holds_key(entries, key) {
                    let i = slot_of(entries, key);
                    if i < earlier.len() {
                        assert(earlier[i] == entries[i]);
                    }
                }
                if holds_key(earlier, key) {
                    let i = slot_of(earlier, key);
                    assert(entries[i] == earlier[i]);
                }
                if key == last.key@ {
                    assert(entries[entries.len() - 1].key@ == key);
                }
            }
        }
    }
}

impl<V> View for ModuleCache<V> {
    type V = Map<Seq<char>, V>;

    closed spec fn view(&self) -> Map<Seq<char>, V> {
        Map::new(
            |key: Seq<char>| holds_key(self.entries@, key),
            |key: Seq<char>| self.entries@[slot_of(self.entries@, key)].value,
        )
    }
}

impl<V> ModuleCache<V> {
    #[verifier::type_invariant]
    spec fn well_formed(self) -> bool {
        distinct_keys(self.entries@)
    }

    /// An empty cache.
    pub fn new() -> (cache: Self)
        ensures
            cache@ == Map::<Seq<char>, V>::empty(),
    {
        let cache = ModuleCache { entries: Vec::new() };
        assert(cache@ =~= Map::<Seq<char>, V>::empty());
        cache
    }

    /// Number of modules in the cache.
    pub fn len(&self) -> (n: usize)
        ensures
            self@.dom().finite(),
            n == self@.dom().len(),
    {
        proof {
            use_type_invariant(self);
            lemma_keys_count(self.entries@);
            assert(self@.dom() =~= key_set(self.entries@));
        }
        self.entries.len()
    }

    /// The index at which `key` is stored, if it is.
    fn find(&self, key: &str) -> (out: Option<usize>)
        ensures
            match out {
                Some(i) => i < self.entries@.len() && self.entries@[i as int].key@ == key@,
                None => !holds_key(self.entries@, key@),
            },
    {
        let wanted = to_chars(key);
        let mut i: usize = 0;
        while i < self.entries.len()
            invariant
                i <= self.entries@.len(),
                wanted@ == key@,
                forall|j: int| 0 <= j < i ==> (#[trigger] self.entries@[j]).key@ != key@,
            decreases self.entries@.len() - i,
        {
            let have = to_chars(self.entries[i].key.as_str());
            if chars_eq(&have, &wanted) {
                return Some(i);
            }
            i += 1;
        }
        None
    }

    /// Whether a module is stored under `key`.
    pub fn contains(&self, key: &str) -> (yes: bool)
        ensures
            yes == self@.contains_key(key@),
    {
        self.find(key).is_some()
    }

    /// The module stored under `key`, if there is one.
    pub fn get(&self, key: &str) -> (out: Option<&V>)
        ensures
            out == if self@.contains_key(key@) {
                Some(&self@[key@])
            } else {
                None
            },
    {
        proof {
            use_type_invariant(self);
        }
        match self.find(key) {
            Some(i) => {
                proof {
                    assert(holds_key(self.entries@, key@));
                    let j = slot_of(self.entries@, key@);
                    assert(j == i);
                }
                Some(&self.entries[i].value)
            },
            None => None,
        }
    }

    /// Appends a module under a key that is not taken yet, and says where.
    fn store(&mut self, key: String, value: V) -> (slot: usize)
        requires
            !old(self)@.contains_key(key@),
        ensures
            final(self)@ == old(self)@.insert(key@, value),
            slot < final(self).entries@.len(),
            final(self).entries@[slot as int].value == value,
    {
        proof {
            use_type_invariant(&*self);
        }
        let ghost before = self.entries@;
        let ghost k = key@;
        let mut entries: Vec<CachedModule<V>> = Vec::new();
        std::mem::swap(&mut entries, &mut self.entries);
        entries.push(CachedModule { key, value });
        proof {
            assert(entries@ == before.push(CachedModule { key, value }));
            assert forall|i: int, j: int| 0 <= i < j < entries@.len() implies entries@[i].key@
                != entries@[j].key@ by {
                if j == before.len() {
                    assert(!holds_key(before, k));
                    assert(before[i].key@ != k);
                }
            }
        }
        self.entries = entries;
        proof {
            let after = self.entries@;
            let n = before.len() as int;
            assert forall|q: Seq<char>| holds_key(after, q) <==> (q == k || holds_key(
                before,
                q,
            )) by {
                if holds_key(after, q) {
                    let i = slot_of(after, q);
                    if i < n {
                        assert(before[i].key@ == q);
                    }
                }
                if q == k {
                    assert(after[n].key@ == q);
                }
                if holds_key(before, q) {
                    let i = slot_of(before, q);
                    assert(after[i].key@ == q);
                }
            }
            assert forall|q: Seq<char>| holds_key(after, q) implies after[slot_of(after, q)].value
                == old(self)@.insert(k, value)[q] by {
                let i = slot_of(after, q);
                if q == k {
                    assert(i == n);
                } else {
                    assert(i < n);
                    assert(before[i].key@ == q);
                    let j = slot_of(before, q);
                    assert(j == i);
                }
            }
            assert(self@ =~= old(self)@.insert(k, value));
        }
        self.entries.len() - 1
    }

    /// Stores `value` under `key` unless the key is taken: a stored module is
    /// never replaced. Says whether the value was stored.
    pub fn insert(&mut self, key: String, value: V) -> (stored: bool)
        ensures
            stored == !old(self)@.contains_key(key@),
            final(self)@ == if stored {
                old(self)@.insert(key@, value)
            } else {
                old(self)@
            },
    {
        if self.find(key.as_str()).is_some() {
            return false;
        }
        self.store(key, value);
        true
    }

    /// The module stored under `key`; when there is none, the module that
    /// `loader` gives for the key, which is stored before it is handed out.
    /// The loader runs only when the key is not in the cache, and what it
    /// fails with is handed on while the cache stays as it was.
    pub fn get_or_load<E, F: FnOnce(&str) -> Result<V, E>>(&mut self, key: &str, loader: F) -> (out:
        Result<&V, E>)
        requires
            !old(self)@.contains_key(key@) ==> loader.requires((key,)),
        ensures
            old(self)@.contains_key(key@) ==> final(self)@ == old(self)@ && out == Ok::<&V, E>(
                &old(self)@[key@],
            ),
            !old(self)@.contains_key(key@) ==> exists|loaded: Result<V, E>|
                #[trigger] loader.ensures((key,), loaded) && match loaded {
                    Ok(value) => final(self)@ == old(self)@.insert(key@, value) && out == Ok::<
                        &V,
                        E,
                    >(&value),
                    Err(e) => final(self)@ == old(self)@ && out == Err::<&V, E>(e),
                },
    {
        proof {
            use_type_invariant(&*self);
        }
        match self.find(key) {
            Some(i) => {
                proof {
                    assert(holds_key(self.entries@, key@));
                    let j = slot_of(self.entries@, key@);
                    assert(j == i);
                }
                Ok(&self.entries[i].value)
            },
            None => {
                let loaded = loader(key);
                match loaded {
                    Ok(value) => {
                        let slot = self.store(String::from_str(key), value);
                        Ok(&self.entries[slot].value)
                    },
                    Err(e) => Err(e),
                }
            },
        }
    }
}

} // verus!

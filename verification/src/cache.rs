//! The parameter cache: a process-lifetime memo table from a configuration
//! key to the expensive proving parameters generated for it. A key's
//! parameters are generated at most once; later lookups hand out another
//! handle to the same shared object without regenerating.
//!
//! The cache is reached under exclusive `&mut` access: each lookup is one
//! whole state transition of the table, and the contracts here pin every
//! such transition.

use vstd::prelude::*;
use crate::error::PostError;

verus! {

/// A handle to a shared immutable resource: handing one out yields a handle
/// to the very same resource, never a deep copy.
pub trait Shared: Sized {
    fn share(&self) -> (r: Self)
        ensures
            r == *self,
    ;
}

/// The memo table. Keys are the stable identifiers derived from a proof
/// configuration; values are the shared parameter handles. Keys are unique.
pub struct ParameterCache<V> {
    keys: Vec<u64>,
    values: Vec<V>,
}

impl<V: Shared> ParameterCache<V> {
    /// The keys the cache holds, in insertion order.
    pub closed spec fn key_seq(self) -> Seq<u64> {
        self.keys@
    }

    /// The values the cache holds, aligned with `key_seq`.
    pub closed spec fn val_seq(self) -> Seq<V> {
        self.values@
    }

    /// Each key appears at most once, and each has a value.
    pub open spec fn wf(self) -> bool {
        &&& self.key_seq().len() == self.val_seq().len()
        &&& forall|i: int, j: int|
            0 <= i < j < self.key_seq().len() ==> self.key_seq()[i] != self.key_seq()[j]
    }

    /// Whether parameters were already generated for this key.
    pub open spec fn contains_key(self, k: u64) -> bool {
        self.key_seq().contains(k)
    }

    /// The parameters stored for a key the cache contains.
    pub open spec fn value_for(self, k: u64) -> V {
        self.val_seq()[self.key_seq().index_of(k)]
    }

    /// An empty cache, as created at process start.
    pub fn new() -> (r: Self)
        ensures
            r.wf(),
            forall|k: u64| !r.contains_key(k),
    {
        let r = ParameterCache { keys: Vec::new(), values: Vec::new() };
        proof {
            assert(forall|k: u64| !r.key_seq().contains(k));
        }
        r
    }

    /// How many distinct keys hold parameters.
    pub fn len(&self) -> (n: usize)
        ensures
            n == self.key_seq().len(),
    {
        self.keys.len()
    }

    /// Whether parameters for this key were already generated.
    pub fn is_cached(&self, key: u64) -> (r: bool)
        requires
            self.wf(),
        ensures
            r == self.contains_key(key),
    {
        match self.find(key) {
            Some(i) => {
                proof {
                    assert(self.key_seq().contains(key));
                }
                true
            },
            None => false,
        }
    }

    /// The position of a key in the table, if present.
    fn find(&self, key: u64) -> (r: Option<usize>)
        requires
            self.wf(),
        ensures
            match r {
                Some(i) => i < self.key_seq().len() && self.key_seq()[i as int] == key,
                None => !self.contains_key(key),
            },
    {
        let mut i: usize = 0;
        while i < self.keys.len()
            invariant
                self.wf(),
                i <= self.key_seq().len(),
                forall|j: int| 0 <= j < i ==> self.key_seq()[j] != key,
            decreases self.keys.len() - i,
        {
            if self.keys[i] == key {
                return Some(i);
            }
            i = i + 1;
        }
        proof {
            assert(forall|j: int|
                0 <= j < self.key_seq().len() ==> self.key_seq()[j] != key);
        }
        None
    }

    /// Returns the parameters for `key`, generating them on first use and
    /// memoizing the result. On a hit the stored handle is shared out and
    /// the generator is never consulted, so at most one generation happens
    /// per key over the cache's lifetime; a hit leaves the cache unchanged.
    /// A generation failure is handed through and caches nothing.
    pub fn get_or_generate<F: FnOnce() -> Result<V, PostError>>(
        &mut self,
        key: u64,
        generator: F,
    ) -> (r: Result<V, PostError>)
        requires
            old(self).wf(),
            generator.requires(()),
        ensures
            final(self).wf(),
            old(self).contains_key(key) ==> *final(self) == *old(self) && (r matches Ok(v) && v
                == old(self).value_for(key)),
            !old(self).contains_key(key) ==> (r matches Ok(v) ==> generator.ensures((), Ok(v))
                && final(self).contains_key(key) && final(self).value_for(key) == v),
            !old(self).contains_key(key) ==> (r matches Err(e) ==> generator.ensures((), Err(e))
                && *final(self) == *old(self)),
            forall|k2: u64|
                k2 != key ==> #[trigger] final(self).contains_key(k2) == old(self).contains_key(
                k2),
            forall|k2: u64|
                k2 != key && old(self).contains_key(k2) ==> #[trigger] final(self).value_for(k2)
                    == old(self).value_for(k2),
            final(self).contains_key(key) ==> old(self).contains_key(key) || (r matches Ok(v) && v
                == final(self).value_for(key)),
    {
        match self.find(key) {
            Some(i) => {
                proof {
                    lemma_index_of_unique(self.key_seq(), key, i as int);
                }
                Ok(self.values[i].share())
            },
            None => {
                match generator() {
                    Ok(v) => {
                        let out = v.share();
                        let ghost old_keys = self.keys@;
                        let ghost old_values = self.values@;
                        self.keys.push(key);
                        self.values.push(v);
                        proof {
                            assert(self.key_seq() =~= old_keys.push(key));
                            assert(self.val_seq() =~= old_values.push(v));
                            lemma_push_contains(old_keys, key);
                            assert(self.wf());
                            lemma_index_of_unique(self.key_seq(), key, old_keys.len() as int);
                            assert forall|k2: u64|
                                k2 != key implies #[trigger] self.contains_key(k2) == old(
                                self,
                            ).contains_key(k2) by {
                                lemma_push_contains(old_keys, key);
                            }
                            assert forall|k2: u64|
                                k2 != key && old(self).contains_key(k2) implies #[trigger] self
                                .value_for(k2) == old(self).value_for(k2) by {
                                lemma_push_contains(old_keys, key);
                                assert(self.key_seq().contains(k2));
                                let i = self.key_seq().index_of(k2);
                                assert(0 <= i < self.key_seq().len() && self.key_seq()[i] == k2);
                                assert(i < old_keys.len());
                                assert(old_keys.contains(k2));
                                let j = old_keys.index_of(k2);
                                assert(0 <= j < old_keys.len() && old_keys[j] == k2);
                                assert(self.key_seq()[j] == k2);
                                assert(i == j);
                            }
                        }
                        Ok(out)
                    },
                    Err(e) => Err(e),
                }
            },
        }
    }
}

/// In a duplicate-free sequence, a position holding the needle is the
/// position `index_of` picks.
proof fn lemma_index_of_unique(s: Seq<u64>, needle: u64, i: int)
    requires
        0 <= i < s.len(),
        s[i] == needle,
        forall|p: int, q: int| 0 <= p < q < s.len() ==> s[p] != s[q],
    ensures
        s.contains(needle),
        s.index_of(needle) == i,
{
    assert(s.contains(needle));
    let j = s.index_of(needle);
    assert(s[j] == needle);
}

/// What a pushed sequence contains: everything it contained before, and the
/// pushed element.
proof fn lemma_push_contains(s: Seq<u64>, x: u64)
    ensures
        forall|y: u64| #[trigger] s.push(x).contains(y) <==> (s.contains(y) || y == x),
{
    assert forall|y: u64| #[trigger] s.push(x).contains(y) implies (s.contains(y) || y == x) by {
        let i = choose|i: int| 0 <= i < s.push(x).len() && s.push(x)[i] == y;
        if i < s.len() {
            assert(s[i] == y);
        }
    }
    assert forall|y: u64| (s.contains(y) || y == x) implies #[trigger] s.push(x).contains(y) by {
        if s.contains(y) {
            let i = choose|i: int| 0 <= i < s.len() && s[i] == y;
            assert(s.push(x)[i] == y);
        } else {
            assert(s.push(x)[s.len() as int] == y);
        }
    }
}

} // verus!

//! The per-key single-flight registry: at most one origin fetch and one
//! disk writer run per cache key at any moment.
//!
//! The first request that registers a key becomes the leader and performs
//! the fetch/write; every request that registers the same key while it is
//! in flight becomes a follower and awaits (shares) the leader's result.
//! The leader removes the key on completion — success or failure — so
//! later requests, and TTL-expired refetches, fetch anew.

use vstd::prelude::*;

verus! {

/// The set of cache keys with a fetch currently in flight.
pub struct InFlightRegistry {
    keys: Vec<String>,
}

impl InFlightRegistry {
    /// Number of keys currently in flight.
    pub closed spec fn spec_len(self) -> int {
        self.keys@.len() as int
    }

    /// The key registered at position `i`.
    pub closed spec fn spec_key_at(self, i: int) -> Seq<char> {
        self.keys@[i]@
    }

    /// Whether a fetch for key `k` is in flight.
    pub closed spec fn spec_contains(self, k: Seq<char>) -> bool {
        exists|i: int| 0 <= i < self.keys@.len() && self.keys@[i]@ == k
    }

    /// No key is registered twice.
    pub closed spec fn wf(self) -> bool {
        forall|i: int, j: int|
            0 <= i < self.keys@.len() && 0 <= j < self.keys@.len() && self.keys@[i]@
                == self.keys@[j]@ ==> i == j
    }

    /// An empty registry: nothing is in flight.
    pub fn new() -> (r: InFlightRegistry)
        ensures
            r.wf(),
            r.spec_len() == 0,
            forall|k: Seq<char>| !r.spec_contains(k),
    {
        InFlightRegistry { keys: Vec::new() }
    }

    /// Position of `key` in the registry, if it is in flight.
    fn find(&self, key: &String) -> (r: Option<usize>)
        ensures
            (match r {
                Some(i) => i < self.keys@.len() && self.keys@[i as int]@ == key@,
                None => !self.spec_contains(key@),
            }),
    {
        let n = self.keys.len();
        let mut i: usize = 0;
        while i < n
            invariant
                n == self.keys@.len(),
                i <= n,
                forall|j: int| 0 <= j < i ==> self.keys@[j]@ != key@,
            decreases n - i,
        {
            if self.keys[i].eq(key) {
                return Some(i);
            }
            i = i + 1;
        }
        None
    }

    /// Register interest in `key`. Returns `true` — lead: no fetch for the
    /// key was in flight, the caller performs the single fetch/write — or
    /// `false` — follow: a fetch is already in flight and the caller awaits
    /// its result. Either way the key is in flight afterwards; no other
    /// key's state changes.
    pub fn begin(&mut self, key: &String) -> (leader: bool)
        requires
            old(self).wf(),
        ensures
            final(self).wf(),
            leader == !old(self).spec_contains(key@),
            final(self).spec_contains(key@),
            forall|k: Seq<char>|
                k != key@ ==> final(self).spec_contains(k) == old(self).spec_contains(k),
    {
        match self.find(key) {
            Some(_) => {
                proof {
                    assert(self.spec_contains(key@));
                }
                false
            },
            None => {
                self.keys.push(key.clone());
                proof {
                    let ks = self.keys@;
                    let old_ks = old(self).keys@;
                    let last = ks.len() - 1;
                    assert(ks[last]@ == key@);
                    assert(self.spec_contains(key@));
                    assert forall|i: int, j: int|
                        0 <= i < ks.len() && 0 <= j < ks.len() && ks[i]@ == ks[j]@ implies i
                        == j by {
                        if i < last && j < last {
                            assert(old_ks[i]@ == old_ks[j]@);
                        } else if i == last && j < last {
                            assert(old_ks[j]@ == key@);
                        } else if j == last && i < last {
                            assert(old_ks[i]@ == key@);
                        }
                    }
                    assert forall|k: Seq<char>| k != key@ implies final(self).spec_contains(k)
                        == old(self).spec_contains(k) by {
                        if old(self).spec_contains(k) {
                            let w = choose|w: int|
                                0 <= w < old_ks.len() && old_ks[w]@ == k;
                            assert(ks[w]@ == k);
                        }
                        if final(self).spec_contains(k) {
                            let w = choose|w: int| 0 <= w < ks.len() && ks[w]@ == k;
                            assert(w < last);
                            assert(old_ks[w]@ == k);
                        }
                    }
                }
                true
            },
        }
    }

    /// The leader for `key` finished, with success or failure: the key is
    /// no longer in flight, so future requests for it fetch anew. No other
    /// key's state changes.
    pub fn complete(&mut self, key: &String)
        requires
            old(self).wf(),
        ensures
            final(self).wf(),
            !final(self).spec_contains(key@),
            forall|k: Seq<char>|
                k != key@ ==> final(self).spec_contains(k) == old(self).spec_contains(k),
    {
        match self.find(key) {
            Some(i) => {
                self.keys.remove(i);
                proof {
                    let ks = self.keys@;
                    let old_ks = old(self).keys@;
                    old_ks.remove_ensures(i as int);
                    assert(ks == old_ks.remove(i as int));
                    assert forall|m: int, j: int|
                        0 <= m < ks.len() && 0 <= j < ks.len() && ks[m]@ == ks[j]@ implies m
                        == j by {
                        let m0: int = if m < i { m } else { m + 1 };
                        let j0: int = if j < i { j } else { j + 1 };
                        assert(old_ks[m0]@ == ks[m]@);
                        assert(old_ks[j0]@ == ks[j]@);
                    }
                    assert forall|k: Seq<char>| !(final(self).spec_contains(k) && k
                        == key@) by {
                        if final(self).spec_contains(k) && k == key@ {
                            let w = choose|w: int| 0 <= w < ks.len() && ks[w]@ == k;
                            let w0: int = if w < i { w } else { w + 1 };
                            assert(old_ks[w0]@ == key@);
                            assert(old_ks[i as int]@ == key@);
                            assert(w0 == i);
                        }
                    }
                    assert forall|k: Seq<char>| k != key@ implies final(self).spec_contains(k)
                        == old(self).spec_contains(k) by {
                        if old(self).spec_contains(k) {
                            let w = choose|w: int|
                                0 <= w < old_ks.len() && old_ks[w]@ == k;
                            assert(w != i);
                            if w < i {
                                assert(ks[w]@ == k);
                            } else {
                                assert(ks[w - 1]@ == k);
                            }
                        }
                        if final(self).spec_contains(k) {
                            let w = choose|w: int| 0 <= w < ks.len() && ks[w]@ == k;
                            let w0: int = if w < i { w } else { w + 1 };
                            assert(old_ks[w0]@ == k);
                        }
                    }
                }
            },
            None => {},
        }
    }
}

/// At most one fetch per key is ever in flight: a well-formed registry
/// never holds two entries for the same key, so two positions holding the
/// same key are one and the same.
pub proof fn lemma_at_most_one_in_flight(r: InFlightRegistry, i: int, j: int)
    requires
        r.wf(),
        0 <= i < r.spec_len(),
        0 <= j < r.spec_len(),
        r.spec_key_at(i) == r.spec_key_at(j),
    ensures
        i == j,
{
}

} // verus!

//! The seen-feed-items table: item name to the time it was first
//! processed. The feed loop consults it to avoid re-adding a job, and a
//! periodic purge drops entries older than a fixed time-to-live.

use vstd::prelude::*;

use crate::kv::keys_unique;
use crate::kv::lemma_keys_unique_remove;
use crate::kv::lemma_map_of_contains;
use crate::kv::lemma_map_of_index;
use crate::kv::lemma_map_of_push;
use crate::kv::lemma_map_of_remove;
use crate::kv::lemma_map_of_update;
use crate::kv::map_of;

verus! {

/// How long a seen entry is kept: one year, in seconds.
pub const SEEN_TTL_SECONDS: u64 = 60 * 60 * 24 * 365;

/// Whether an entry inserted at `ts` is still fresh at `now`: younger than
/// the time-to-live. An entry dated in the future counts as fresh.
pub open spec fn spec_fresh(now: u64, ts: u64, ttl: u64) -> bool {
    now - ts < ttl
}

/// Decides [`spec_fresh`] without underflowing.
pub fn is_fresh(now: u64, ts: u64, ttl: u64) -> (r: bool)
    ensures
        r == spec_fresh(now, ts, ttl),
{
    ts > now || now - ts < ttl
}

/// The table of feed items already processed.
pub struct Subscribe {
    entries: Vec<(String, u64)>,
}

impl Subscribe {
    /// The abstract value: item name to insertion time.
    pub closed spec fn view(&self) -> Map<Seq<char>, u64> {
        map_of(self.entries@)
    }

    /// Well-formedness: no item name occurs twice.
    pub closed spec fn wf(&self) -> bool {
        keys_unique(self.entries@)
    }

    pub fn new() -> (r: Subscribe)
        ensures
            r.wf(),
            r@ == Map::<Seq<char>, u64>::empty(),
    {
        Subscribe { entries: Vec::new() }
    }

    fn find_index(&self, name: &String) -> (r: Option<usize>)
        requires
            self.wf(),
        ensures
            match r {
                Some(i) => i < self.entries@.len() && self.entries@[i as int].0@ == name@,
                None => !self@.contains_key(name@),
            },
    {
        proof {
            lemma_map_of_contains(self.entries@, name@);
        }
        let n = self.entries.len();
        for i in 0..n
            invariant
                n == self.entries@.len(),
                forall|j: int| 0 <= j < i ==> (#[trigger] self.entries@[j]).0@ != name@,
        {
            if self.entries[i].0 == *name {
                return Some(i);
            }
        }
        None
    }

    /// Record that an item was processed at `now`; a second insert under
    /// the same name overwrites the time.
    pub fn insert(&mut self, name: String, now: u64)
        requires
            old(self).wf(),
        ensures
            final(self).wf(),
            final(self)@ == old(self)@.insert(name@, now),
    {
        let ghost s0 = self.entries@;
        match self.find_index(&name) {
            Some(i) => {
                let key = self.entries[i].0.clone();
                self.entries.set(i, (key, now));
                proof {
                    assert(self.entries@ =~= s0.update(i as int, (s0[i as int].0, now)));
                    lemma_map_of_update(s0, i as int, now);
                    assert(keys_unique(self.entries@)) by {
                        assert forall|a: int, b: int|
                            0 <= a < b < self.entries@.len() implies (#[trigger] self.entries@[a]).0@
                            != (#[trigger] self.entries@[b]).0@ by {
                            assert(self.entries@[a].0@ == s0[a].0@);
                            assert(self.entries@[b].0@ == s0[b].0@);
                        }
                    }
                    assert(name@ == s0[i as int].0@);
                }
            },
            None => {
                proof {
                    lemma_map_of_push(s0, (name, now));
                    lemma_map_of_contains(s0, name@);
                }
                self.entries.push((name, now));
                proof {
                    assert(keys_unique(self.entries@)) by {
                        assert forall|a: int, b: int|
                            0 <= a < b < self.entries@.len() implies (#[trigger] self.entries@[a]).0@
                            != (#[trigger] self.entries@[b]).0@ by {
                            if b == self.entries@.len() - 1 {
                                assert(self.entries@[a] == s0[a]);
                                lemma_map_of_contains(s0, self.entries@[b].0@);
                            } else {
                                assert(self.entries@[a] == s0[a]);
                                assert(self.entries@[b] == s0[b]);
                            }
                        }
                    }
                }
            },
        }
    }

    /// When the item was first processed, if it is on record.
    pub fn get(&self, name: String) -> (r: Option<u64>)
        requires
            self.wf(),
        ensures
            match r {
                Some(ts) => self@.contains_key(name@) && self@[name@] == ts,
                None => !self@.contains_key(name@),
            },
    {
        match self.find_index(&name) {
            Some(i) => {
                proof {
                    lemma_map_of_index(self.entries@, i as int);
                }
                Some(self.entries[i].1)
            },
            None => None,
        }
    }

    /// Forget one item.
    pub fn delete(&mut self, name: String)
        requires
            old(self).wf(),
        ensures
            final(self).wf(),
            final(self)@ == old(self)@.remove(name@),
    {
        let ghost s0 = self.entries@;
        match self.find_index(&name) {
            Some(i) => {
                self.entries.remove(i);
                proof {
                    lemma_map_of_remove(s0, i as int);
                    lemma_keys_unique_remove(s0, i as int);
                    assert(self.entries@ =~= s0.remove(i as int));
                }
            },
            None => {
                proof {
                    assert(old(self)@.remove(name@) =~= old(self)@);
                }
            },
        }
    }

    /// Drop every entry whose time-to-live has run out; entries still
    /// fresh, and only those, survive with their time unchanged.
    pub fn clear_expire(&mut self, now: u64, ttl: u64)
        requires
            old(self).wf(),
        ensures
            final(self).wf(),
            forall|k: Seq<char>|
                final(self)@.contains_key(k) <==> (old(self)@.contains_key(k) && spec_fresh(
                    now,
                    old(self)@[k],
                    ttl,
                )),
            forall|k: Seq<char>|
                final(self)@.contains_key(k) ==> final(self)@[k] == old(self)@[k],
    {
        let ghost s0 = self.entries@;
        let mut kept: Vec<(String, u64)> = Vec::new();
        let n = self.entries.len();
        for i in 0..n
            invariant
                n == self.entries@.len(),
                self.entries@ == s0,
                keys_unique(s0),
                forall|a: int|
                    0 <= a < kept@.len() ==> map_of(s0).contains_key((#[trigger] kept@[a]).0@)
                        && map_of(s0)[kept@[a].0@] == kept@[a].1 && spec_fresh(
                        now,
                        kept@[a].1,
                        ttl,
                    ),
                forall|a: int, b: int|
                    0 <= a < kept@.len() && i <= b < n ==> (#[trigger] kept@[a]).0@ != (
                    #[trigger] s0[b]).0@,
                forall|a: int, b: int|
                    0 <= a < b < kept@.len() ==> (#[trigger] kept@[a]).0@ != (
                    #[trigger] kept@[b]).0@,
                forall|b: int|
                    0 <= b < i && spec_fresh(now, (#[trigger] s0[b]).1, ttl) ==> exists|a: int|
                        0 <= a < kept@.len() && (#[trigger] kept@[a]).0@ == s0[b].0@,
        {
            let ts = self.entries[i].1;
            if ts > now || now - ts < ttl {
                let ghost k0 = kept@;
                kept.push((self.entries[i].0.clone(), ts));
                proof {
                    let last = kept@.len() - 1;
                    assert(kept@[last] == s0[i as int]);
                    assert(spec_fresh(now, s0[i as int].1, ttl));
                    lemma_map_of_index(s0, i as int);
                    assert forall|a: int, b: int|
                        0 <= a < kept@.len() && i + 1 <= b < n implies (#[trigger] kept@[a]).0@
                        != (#[trigger] s0[b]).0@ by {
                        if a < last {
                            assert(kept@[a] == k0[a]);
                        } else {
                            assert(s0[i as int].0@ != s0[b].0@);
                        }
                    }
                    assert forall|a: int, b: int|
                        0 <= a < b < kept@.len() implies (#[trigger] kept@[a]).0@ != (
                    #[trigger] kept@[b]).0@ by {
                        assert(kept@[a] == k0[a]);
                        if b < last {
                            assert(kept@[b] == k0[b]);
                        } else {
                            assert(k0[a].0@ != s0[i as int].0@);
                        }
                    }
                    assert forall|b: int|
                        0 <= b < i + 1 && spec_fresh(now, (#[trigger] s0[b]).1, ttl) implies exists|
                        a: int,
                    |
                        0 <= a < kept@.len() && (#[trigger] kept@[a]).0@ == s0[b].0@ by {
                        if b < i {
                            let a = choose|a: int|
                                0 <= a < k0.len() && (#[trigger] k0[a]).0@ == s0[b].0@;
                            assert(kept@[a] == k0[a]);
                            assert(0 <= a < kept@.len() && kept@[a].0@ == s0[b].0@);
                        } else {
                            assert(0 <= last < kept@.len() && kept@[last].0@ == s0[b].0@);
                        }
                    }
                }
            }
        }
        self.entries = kept;
        proof {
            assert forall|k: Seq<char>|
                self@.contains_key(k) <==> (map_of(s0).contains_key(k) && spec_fresh(
                    now,
                    map_of(s0)[k],
                    ttl,
                )) by {
                if self@.contains_key(k) {
                    lemma_map_of_contains(self.entries@, k);
                    let a = choose|a: int|
                        0 <= a < self.entries@.len() && (#[trigger] self.entries@[a]).0@ == k;
                    lemma_map_of_index(self.entries@, a);
                }
                if map_of(s0).contains_key(k) && spec_fresh(now, map_of(s0)[k], ttl) {
                    lemma_map_of_contains(s0, k);
                    let b = choose|b: int| 0 <= b < s0.len() && (#[trigger] s0[b]).0@ == k;
                    lemma_map_of_index(s0, b);
                    let a = choose|a: int|
                        0 <= a < self.entries@.len() && (#[trigger] self.entries@[a]).0@
                            == s0[b].0@;
                    lemma_map_of_index(self.entries@, a);
                }
            }
            assert forall|k: Seq<char>| self@.contains_key(k) implies self@[k] == map_of(s0)[k] by {
                lemma_map_of_contains(self.entries@, k);
                let a = choose|a: int|
                    0 <= a < self.entries@.len() && (#[trigger] self.entries@[a]).0@ == k;
                lemma_map_of_index(self.entries@, a);
            }
        }
    }
}

} // verus!

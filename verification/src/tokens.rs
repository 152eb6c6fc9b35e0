//! The backend-credentials table: storage-backend name to the opaque
//! refresh token it handed back at its last login.

use vstd::prelude::*;

use crate::kv::keys_unique;
use crate::kv::lemma_map_of_contains;
use crate::kv::lemma_map_of_index;
use crate::kv::lemma_map_of_push;
use crate::kv::lemma_map_of_update;
use crate::kv::map_of;

verus! {

/// The table of refresh tokens, keyed by backend name.
pub struct Onedrive {
    entries: Vec<(String, String)>,
}

impl Onedrive {
    /// The abstract value: backend name to token.
    pub closed spec fn view(&self) -> Map<Seq<char>, String> {
        map_of(self.entries@)
    }

    /// Well-formedness: no backend name occurs twice.
    pub closed spec fn wf(&self) -> bool {
        keys_unique(self.entries@)
    }

    pub fn new() -> (r: Onedrive)
        ensures
            r.wf(),
            r@ == Map::<Seq<char>, String>::empty(),
    {
        Onedrive { entries: Vec::new() }
    }

    fn find_index(&self, name: &String) -> (r: Option<usize>)
        requires
            self.wf(),
        ensures
            match r {
                Some(i) => i < self.entries@.len() && self.entries@[i as int].0@ == name@,
                None => !self@.contains_key(name@),
            },
    {
        proof {
            lemma_map_of_contains(self.entries@, name@);
        }
        let n = self.entries.len();
        for i in 0..n
            invariant
                n == self.entries@.len(),
                forall|j: int| 0 <= j < i ==> (#[trigger] self.entries@[j]).0@ != name@,
        {
            if self.entries[i].0 == *name {
                return Some(i);
            }
        }
        None
    }

    /// Store the token a backend handed back, replacing any earlier one
    /// under the same backend name.
    pub fn insert_refresh_token(&mut self, token: String, name: String)
        requires
            old(self).wf(),
        ensures
            final(self).wf(),
            final(self)@ == old(self)@.insert(name@, token),
    {
        let ghost s0 = self.entries@;
        match self.find_index(&name) {
            Some(i) => {
                let key = self.entries[i].0.clone();
                proof {
                    lemma_map_of_update(s0, i as int, token);
                }
                self.entries.set(i, (key, token));
                proof {
                    assert(self.entries@ =~= s0.update(i as int, (s0[i as int].0, self.entries@[i as int].1)));
                    assert(keys_unique(self.entries@)) by {
                        assert forall|a: int, b: int|
                            0 <= a < b < self.entries@.len() implies (#[trigger] self.entries@[a]).0@
                            != (#[trigger] self.entries@[b]).0@ by {
                            assert(self.entries@[a].0@ == s0[a].0@);
                            assert(self.entries@[b].0@ == s0[b].0@);
                        }
                    }
                    assert(name@ == s0[i as int].0@);
                }
            },
            None => {
                proof {
                    lemma_map_of_push(s0, (name, token));
                    lemma_map_of_contains(s0, name@);
                }
                self.entries.push((name, token));
                proof {
                    assert(keys_unique(self.entries@)) by {
                        assert forall|a: int, b: int|
                            0 <= a < b < self.entries@.len() implies (#[trigger] self.entries@[a]).0@
                            != (#[trigger] self.entries@[b]).0@ by {
                            if b == self.entries@.len() - 1 {
                                assert(self.entries@[a] == s0[a]);
                                lemma_map_of_contains(s0, self.entries@[b].0@);
                            } else {
                                assert(self.entries@[a] == s0[a]);
                                assert(self.entries@[b] == s0[b]);
                            }
                        }
                    }
                }
            },
        }
    }

    /// The stored token for a backend, if any.
    pub fn get_refresh_token(&self, name: String) -> (r: Option<String>)
        requires
            self.wf(),
        ensures
            match r {
                Some(t) => self@.contains_key(name@) && self@[name@]@ == t@,
                None => !self@.contains_key(name@),
            },
    {
        match self.find_index(&name) {
            Some(i) => {
                proof {
                    lemma_map_of_index(self.entries@, i as int);
                }
                Some(self.entries[i].1.clone())
            },
            None => None,
        }
    }
}

} // verus!

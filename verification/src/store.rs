//! The task table: a map from job name to [`Task`] record.
//!
//! The table is the single source of truth for the pipeline. Its abstract
//! value is a `Map<Seq<char>, Task>`; every operation states exactly how it
//! changes that map. Insertion upserts but preserves `added_at` from any
//! prior record under the same name.

use vstd::prelude::*;

use crate::kv::keys_unique;
use crate::kv::lemma_keys_unique_remove;
use crate::kv::lemma_map_of_contains;
use crate::kv::lemma_map_of_index;
use crate::kv::lemma_map_of_push;
use crate::kv::lemma_map_of_remove;
use crate::kv::lemma_map_of_update;
use crate::kv::map_of;
use crate::task::Task;
use crate::task::TaskState;

verus! {

/// Which lifecycle states a table scan should select.
#[derive(Clone, Copy, PartialEq, Eq, Debug)]
pub struct StateFilter {
    pub pending: bool,
    pub downloading: bool,
    pub blocked: bool,
    pub downloaded: bool,
    pub finished: bool,
}

impl StateFilter {
    /// Whether a state is selected by this filter.
    pub open spec fn spec_matches(self, s: TaskState) -> bool {
        match s {
            TaskState::Pending => self.pending,
            TaskState::Downloading => self.downloading,
            TaskState::Blocked => self.blocked,
            TaskState::Downloaded { .. } => self.downloaded,
            TaskState::Finished { .. } => self.finished,
        }
    }

    pub fn matches(&self, s: &TaskState) -> (r: bool)
        ensures
            r == self.spec_matches(*s),
    {
        match s {
            TaskState::Pending => self.pending,
            TaskState::Downloading => self.downloading,
            TaskState::Blocked => self.blocked,
            TaskState::Downloaded { .. } => self.downloaded,
            TaskState::Finished { .. } => self.finished,
        }
    }
}

/// The record that an upsert of `task` leaves under a name whose previous
/// record was `prev`: everything comes from `task`, except that `added_at`
/// of an existing record survives.
pub open spec fn merge_insert(prev: Option<Task>, task: Task) -> Task {
    match prev {
        Some(p) => Task { added_at: p.added_at, ..task },
        None => task,
    }
}

/// The map after replacing only the `state` field of the record under `k`;
/// a missing key leaves the map unchanged.
pub open spec fn spec_update_state(m: Map<Seq<char>, Task>, k: Seq<char>, s: TaskState) -> Map<
    Seq<char>,
    Task,
> {
    if m.contains_key(k) {
        m.insert(k, Task { state: s, ..m[k] })
    } else {
        m
    }
}

/// The table of tracked jobs, keyed by job name.
pub struct Tasks {
    entries: Vec<(String, Task)>,
}

impl Tasks {
    /// The abstract value: job name to record.
    pub closed spec fn view(&self) -> Map<Seq<char>, Task> {
        map_of(self.entries@)
    }

    /// Well-formedness: no job name occurs twice; established by [`Tasks::new`]
    /// and preserved by every operation.
    pub closed spec fn wf(&self) -> bool {
        keys_unique(self.entries@)
    }

    /// An empty table.
    pub fn new() -> (r: Tasks)
        ensures
            r.wf(),
            r@ == Map::<Seq<char>, Task>::empty(),
    {
        Tasks { entries: Vec::new() }
    }

    /// The index holding `name`, if any.
    fn find_index(&self, name: &String) -> (r: Option<usize>)
        requires
            self.wf(),
        ensures
            match r {
                Some(i) => i < self.entries@.len() && self.entries@[i as int].0@ == name@,
                None => !self@.contains_key(name@),
            },
    {
        proof {
            lemma_map_of_contains(self.entries@, name@);
        }
        let n = self.entries.len();
        for i in 0..n
            invariant
                n == self.entries@.len(),
                forall|j: int| 0 <= j < i ==> (#[trigger] self.entries@[j]).0@ != name@,
        {
            if self.entries[i].0 == *name {
                return Some(i);
            }
        }
        None
    }

    /// Upsert: the record is stored under `name`, with `added_at` taken from
    /// any record previously stored under the same name.
    pub fn insert(&mut self, name: String, task: Task)
        requires
            old(self).wf(),
        ensures
            final(self).wf(),
            final(self)@ == old(self)@.insert(
                name@,
                merge_insert(
                    if old(self)@.contains_key(name@) {
                        Some(old(self)@[name@])
                    } else {
                        None
                    },
                    task,
                ),
            ),
    {
        let ghost s0 = self.entries@;
        match self.find_index(&name) {
            Some(i) => {
                proof {
                    lemma_map_of_index(s0, i as int);
                }
                let merged = Task { added_at: self.entries[i].1.added_at, ..task };
                let key = self.entries[i].0.clone();
                self.entries.set(i, (key, merged));
                proof {
                    assert(self.entries@ =~= s0.update(i as int, (s0[i as int].0, merged)));
                    lemma_map_of_update(s0, i as int, merged);
                    assert(keys_unique(self.entries@)) by {
                        assert forall|a: int, b: int|
                            0 <= a < b < self.entries@.len() implies (#[trigger] self.entries@[a]).0@
                            != (#[trigger] self.entries@[b]).0@ by {
                            assert(self.entries@[a].0@ == s0[a].0@);
                            assert(self.entries@[b].0@ == s0[b].0@);
                        }
                    }
                    assert(name@ == s0[i as int].0@);
                }
            },
            None => {
                proof {
                    lemma_map_of_push(s0, (name, task));
                    lemma_map_of_contains(s0, name@);
                }
                self.entries.push((name, task));
                proof {
                    assert(keys_unique(self.entries@)) by {
                        assert forall|a: int, b: int|
                            0 <= a < b < self.entries@.len() implies (#[trigger] self.entries@[a]).0@
                            != (#[trigger] self.entries@[b]).0@ by {
                            if b == self.entries@.len() - 1 {
                                assert(self.entries@[a] == s0[a]);
                                lemma_map_of_contains(s0, self.entries@[b].0@);
                            } else {
                                assert(self.entries@[a] == s0[a]);
                                assert(self.entries@[b] == s0[b]);
                            }
                        }
                    }
                }
            },
        }
    }

    /// Replace only the `state` field of the record under `name`; a missing
    /// name leaves the table unchanged.
    pub fn update_state(&mut self, name: String, state: TaskState)
        requires
            old(self).wf(),
        ensures
            final(self).wf(),
            final(self)@ == spec_update_state(old(self)@, name@, state),
    {
        let ghost s0 = self.entries@;
        match self.find_index(&name) {
            Some(i) => {
                proof {
                    lemma_map_of_index(s0, i as int);
                }
                let updated = Task { state, ..self.entries[i].1.duplicate() };
                let key = self.entries[i].0.clone();
                self.entries.set(i, (key, updated));
                proof {
                    assert(self.entries@ =~= s0.update(i as int, (s0[i as int].0, updated)));
                    lemma_map_of_update(s0, i as int, updated);
                    assert(keys_unique(self.entries@)) by {
                        assert forall|a: int, b: int|
                            0 <= a < b < self.entries@.len() implies (#[trigger] self.entries@[a]).0@
                            != (#[trigger] self.entries@[b]).0@ by {
                            assert(self.entries@[a].0@ == s0[a].0@);
                            assert(self.entries@[b].0@ == s0[b].0@);
                        }
                    }
                    assert(name@ == s0[i as int].0@);
                }
            },
            None => {},
        }
    }

    /// The record under `name`, if any.
    pub fn get(&self, name: String) -> (r: Option<Task>)
        requires
            self.wf(),
        ensures
            match r {
                Some(t) => self@.contains_key(name@) && self@[name@] == t,
                None => !self@.contains_key(name@),
            },
    {
        match self.find_index(&name) {
            Some(i) => {
                proof {
                    lemma_map_of_index(self.entries@, i as int);
                }
                Some(self.entries[i].1.duplicate())
            },
            None => None,
        }
    }

    /// Remove the record under `name`, if any.
    pub fn delete(&mut self, name: &str)
        requires
            old(self).wf(),
        ensures
            final(self).wf(),
            final(self)@ == old(self)@.remove(name@),
    {
        let ghost s0 = self.entries@;
        let owned: String = name.to_owned();
        match self.find_index(&owned) {
            Some(i) => {
                self.entries.remove(i);
                proof {
                    lemma_map_of_remove(s0, i as int);
                    lemma_keys_unique_remove(s0, i as int);
                    assert(self.entries@ =~= s0.remove(i as int));
                }
            },
            None => {
                proof {
                    assert(old(self)@.remove(name@) =~= old(self)@);
                }
            },
        }
    }

    /// All records whose state the filter selects, each name at most once.
    pub fn get_with_state(&self, filter: &StateFilter) -> (r: Vec<(String, Task)>)
        requires
            self.wf(),
        ensures
            keys_unique(r@),
            forall|i: int|
                0 <= i < r@.len() ==> self@.contains_key((#[trigger] r@[i]).0@) && self@[r@[i].0@]
                    == r@[i].1 && filter.spec_matches(r@[i].1.state),
            forall|k: Seq<char>|
                self@.contains_key(k) && filter.spec_matches(self@[k].state) ==> exists|i: int|
                    0 <= i < r@.len() && (#[trigger] r@[i]).0@ == k,
    {
        let mut r: Vec<(String, Task)> = Vec::new();
        let n = self.entries.len();
        for i in 0..n
            invariant
                n == self.entries@.len(),
                keys_unique(self.entries@),
                self.wf(),
                forall|a: int|
                    0 <= a < r@.len() ==> self@.contains_key((#[trigger] r@[a]).0@) && self@[r@[a].0@]
                        == r@[a].1 && filter.spec_matches(r@[a].1.state),
                forall|a: int, b: int|
                    0 <= a < r@.len() && i <= b < n ==> (#[trigger] r@[a]).0@ != (
                    #[trigger] self.entries@[b]).0@,
                keys_unique(r@),
                forall|b: int|
                    0 <= b < i && filter.spec_matches((#[trigger] self.entries@[b]).1.state)
                        ==> exists|a: int| 0 <= a < r@.len() && (#[trigger] r@[a]).0@
                        == self.entries@[b].0@,
        {
            if filter.matches(&self.entries[i].1.state) {
                let ghost r0 = r@;
                r.push((self.entries[i].0.clone(), self.entries[i].1.duplicate()));
                proof {
                    let last = r@.len() - 1;
                    lemma_map_of_index(self.entries@, i as int);
                    assert(r@[last] == self.entries@[i as int]);
                    assert(r@[last].0@ == self.entries@[i as int].0@);
                    assert forall|a: int, b: int|
                        0 <= a < r@.len() && i + 1 <= b < n implies (#[trigger] r@[a]).0@ != (
                        #[trigger] self.entries@[b]).0@ by {
                        if a < last {
                            assert(r@[a] == r0[a]);
                        } else {
                            assert(self.entries@[i as int].0@ != self.entries@[b].0@);
                        }
                    }
                    assert forall|a: int, b: int|
                        0 <= a < b < r@.len() implies (#[trigger] r@[a]).0@ != (#[trigger] r@[b]).0@ by {
                        if b < last {
                            assert(r@[a] == r0[a]);
                            assert(r@[b] == r0[b]);
                        } else {
                            assert(r@[a] == r0[a]);
                            assert(r0[a].0@ != self.entries@[i as int].0@);
                        }
                    }
                    assert forall|b: int|
                        0 <= b < i + 1 && filter.spec_matches((#[trigger] self.entries@[b]).1.state)
                            implies exists|a: int| 0 <= a < r@.len() && (#[trigger] r@[a]).0@
                            == self.entries@[b].0@ by {
                        if b < i {
                            let a = choose|a: int|
                                0 <= a < r0.len() && (#[trigger] r0[a]).0@ == self.entries@[b].0@;
                            assert(r@[a] == r0[a]);
                            assert(0 <= a < r@.len() && r@[a].0@ == self.entries@[b].0@);
                        } else {
                            assert(0 <= last < r@.len() && r@[last].0@ == self.entries@[b].0@);
                        }
                    }
                }
            }
        }
        proof {
            assert forall|k: Seq<char>|
                self@.contains_key(k) && filter.spec_matches(self@[k].state) implies exists|a: int|
                0 <= a < r@.len() && (#[trigger] r@[a]).0@ == k by {
                lemma_map_of_contains(self.entries@, k);
                let b = choose|b: int|
                    0 <= b < self.entries@.len() && (#[trigger] self.entries@[b]).0@ == k;
                lemma_map_of_index(self.entries@, b);
            }
        }
        r
    }
}

} // verus!

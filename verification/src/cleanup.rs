//! The retention sweep: find `Finished` jobs whose retention window has
//! elapsed, reclaim their engine-side and local resources, and delete their
//! records.
//!
//! The engine and filesystem deletions happen outside; the functions here
//! decide which jobs are due and, given the outcome of the deletion
//! attempts, whether the record may be removed. A job whose deletions all
//! failed stays `Finished` and is retried on the next sweep.

use vstd::prelude::*;

use crate::store::StateFilter;
use crate::store::Tasks;
use crate::task::Task;
use crate::task::TaskState;

verus! {

/// Whether a finished job's retention window has elapsed: retention counts
/// from `finish_time`, and the job becomes due at the instant
/// `finish_time + retention` itself.
pub open spec fn spec_cleanup_due(finish_time: u64, retention: u64, now: u64) -> bool {
    finish_time + retention <= now
}

/// Decides [`spec_cleanup_due`] without overflowing.
pub fn cleanup_due(finish_time: u64, retention: u64, now: u64) -> (r: bool)
    ensures
        r == spec_cleanup_due(finish_time, retention, now),
{
    now >= finish_time && now - finish_time >= retention
}

/// Whether a record is `Finished` and due for reclamation.
pub open spec fn due_for_cleanup(t: Task, retention: u64, now: u64) -> bool {
    match t.state {
        TaskState::Finished { finish_time, .. } => spec_cleanup_due(finish_time, retention, now),
        _ => false,
    }
}

/// One job a sweep must reclaim: its name, the stored payload path (the
/// filesystem fallback target) and the content hash (the engine deletion
/// key).
pub struct CleanupItem {
    pub name: String,
    pub file_path: String,
    pub info_hash: String,
}

/// Whether an item carries the payload path and content hash of a
/// `Finished` record.
pub open spec fn item_matches(item: CleanupItem, t: Task) -> bool {
    match t.state {
        TaskState::Finished { file_path, info_hash, .. } => item.file_path@ == file_path@
            && item.info_hash@ == info_hash@,
        _ => false,
    }
}

/// The sweep plan: exactly the jobs that are `Finished` and whose retention
/// window has elapsed, each once. Jobs not yet due are left untouched until
/// a later sweep.
pub fn cleanup_plan(tasks: &Tasks, retention: u64, now: u64) -> (r: Vec<CleanupItem>)
    requires
        tasks.wf(),
    ensures
        forall|i: int|
            0 <= i < r@.len() ==> tasks@.contains_key((#[trigger] r@[i]).name@) && due_for_cleanup(
                tasks@[r@[i].name@],
                retention,
                now,
            ) && item_matches(r@[i], tasks@[r@[i].name@]),
        forall|k: Seq<char>|
            tasks@.contains_key(k) && due_for_cleanup(tasks@[k], retention, now) ==> exists|i: int|
                0 <= i < r@.len() && (#[trigger] r@[i]).name@ == k,
        forall|i: int, j: int|
            0 <= i < j < r@.len() ==> (#[trigger] r@[i]).name@ != (#[trigger] r@[j]).name@,
{
    let filter = StateFilter {
        pending: false,
        downloading: false,
        blocked: false,
        downloaded: false,
        finished: true,
    };
    let found = tasks.get_with_state(&filter);
    let mut r: Vec<CleanupItem> = Vec::new();
    let n = found.len();
    for i in 0..n
        invariant
            n == found@.len(),
            forall|a: int|
                0 <= a < found@.len() ==> tasks@.contains_key((#[trigger] found@[a]).0@)
                    && tasks@[found@[a].0@] == found@[a].1 && filter.spec_matches(
                    found@[a].1.state,
                ),
            forall|a: int, b: int|
                0 <= a < b < found@.len() ==> (#[trigger] found@[a]).0@ != (
                #[trigger] found@[b]).0@,
            forall|a: int|
                0 <= a < r@.len() ==> tasks@.contains_key((#[trigger] r@[a]).name@)
                    && due_for_cleanup(tasks@[r@[a].name@], retention, now) && item_matches(
                    r@[a],
                    tasks@[r@[a].name@],
                ),
            forall|a: int, b: int|
                0 <= a < r@.len() && i <= b < n ==> (#[trigger] r@[a]).name@ != (
                #[trigger] found@[b]).0@,
            forall|a: int, b: int|
                0 <= a < b < r@.len() ==> (#[trigger] r@[a]).name@ != (#[trigger] r@[b]).name@,
            forall|b: int|
                0 <= b < i && due_for_cleanup((#[trigger] found@[b]).1, retention, now)
                    ==> exists|a: int| 0 <= a < r@.len() && (#[trigger] r@[a]).name@
                    == found@[b].0@,
    {
        let due = match &found[i].1.state {
            TaskState::Finished { finish_time, .. } => cleanup_due(*finish_time, retention, now),
            _ => false,
        };
        if due {
            let ghost r0 = r@;
            let (file_path, info_hash) = match &found[i].1.state {
                TaskState::Finished { file_path, info_hash, .. } => (
                    file_path.clone(),
                    info_hash.clone(),
                ),
                _ => (String::new(), String::new()),
            };
            r.push(CleanupItem { name: found[i].0.clone(), file_path, info_hash });
            proof {
                let last = r@.len() - 1;
                assert(r@[last].name@ == found@[i as int].0@);
                assert(item_matches(r@[last], found@[i as int].1));
                assert forall|a: int, b: int|
                    0 <= a < r@.len() && i + 1 <= b < n implies (#[trigger] r@[a]).name@ != (
                #[trigger] found@[b]).0@ by {
                    if a < last {
                        assert(r@[a] == r0[a]);
                    } else {
                        assert(found@[i as int].0@ != found@[b].0@);
                    }
                }
                assert forall|a: int, b: int|
                    0 <= a < b < r@.len() implies (#[trigger] r@[a]).name@ != (
                #[trigger] r@[b]).name@ by {
                    assert(r@[a] == r0[a]);
                    if b < last {
                        assert(r@[b] == r0[b]);
                    } else {
                        assert(r0[a].name@ != found@[i as int].0@);
                    }
                }
                assert forall|b: int|
                    0 <= b < i + 1 && due_for_cleanup((#[trigger] found@[b]).1, retention, now)
                        implies exists|a: int| 0 <= a < r@.len() && (#[trigger] r@[a]).name@
                        == found@[b].0@ by {
                    if b < i {
                        let a = choose|a: int|
                            0 <= a < r0.len() && (#[trigger] r0[a]).name@ == found@[b].0@;
                        assert(r@[a] == r0[a]);
                        assert(0 <= a < r@.len() && r@[a].name@ == found@[b].0@);
                    } else {
                        assert(0 <= last < r@.len() && r@[last].name@ == found@[b].0@);
                    }
                }
            }
        }
    }
    proof {
        assert forall|k: Seq<char>|
            tasks@.contains_key(k) && due_for_cleanup(tasks@[k], retention, now) implies exists|
            a: int,
        |
            0 <= a < r@.len() && (#[trigger] r@[a]).name@ == k by {
            assert(filter.spec_matches(tasks@[k].state));
            let b = choose|b: int| 0 <= b < found@.len() && (#[trigger] found@[b]).0@ == k;
            assert(due_for_cleanup(found@[b].1, retention, now));
        }
    }
    r
}

/// Conclude one reclaim attempt. The record is deleted exactly when at
/// least one deletion path — the engine deletion or the filesystem
/// fallback — succeeded; when both failed, the record stays `Finished` and
/// the next sweep retries it.
pub fn cleanup_commit(
    tasks: &mut Tasks,
    name: &String,
    engine_deleted: bool,
    fs_deleted: bool,
) -> (removed: bool)
    requires
        old(tasks).wf(),
    ensures
        final(tasks).wf(),
        removed == (engine_deleted || fs_deleted),
        removed ==> final(tasks)@ == old(tasks)@.remove(name@),
        !removed ==> final(tasks)@ == old(tasks)@,
{
    if engine_deleted || fs_deleted {
        tasks.delete(name.as_str());
        true
    } else {
        false
    }
}

/// The retention law: a `Finished` job is never due before
/// `finish_time + seed_retention`, and from that instant on it is due.
pub proof fn lemma_retention_window(finish_time: u64, retention: u64, now: u64)
    ensures
        now < finish_time + retention ==> !spec_cleanup_due(finish_time, retention, now),
        finish_time + retention <= now ==> spec_cleanup_due(finish_time, retention, now),
{
}

} // verus!

//! Worker-pool logic: accepting a job, the per-job decisions a worker makes
//! after the submission race and the transfer race, and the startup
//! recovery scan.
//!
//! Each worker drives one job at a time through
//! `Pending -> Downloading -> (Blocked | Downloaded)`. The races themselves
//! (engine calls against a timer) happen outside; the functions here take
//! the race outcome and state exactly what is recorded and what the engine
//! is asked to do next.

use vstd::prelude::*;

use crate::store::Tasks;
use crate::store::StateFilter;
use crate::store::merge_insert;
use crate::store::spec_update_state;
use crate::task::Anime;
use crate::task::Subscription;
use crate::task::Task;
use crate::task::TaskState;
use crate::text::join_path;
use crate::text::spec_join_path;

verus! {

/// The queue the workers consume, oldest job first.
pub struct JobQueue {
    items: Vec<(String, Subscription)>,
}

impl JobQueue {
    /// The abstract value: the queued jobs in arrival order.
    pub closed spec fn view(&self) -> Seq<(String, Subscription)> {
        self.items@
    }

    pub fn new() -> (r: JobQueue)
        ensures
            r@ == Seq::<(String, Subscription)>::empty(),
    {
        JobQueue { items: Vec::new() }
    }

    pub fn enqueue(&mut self, name: String, sub: Subscription)
        ensures
            final(self)@ == old(self)@.push((name, sub)),
    {
        self.items.push((name, sub));
    }

    /// The oldest queued job, or nothing when the queue is empty.
    pub fn dequeue(&mut self) -> (r: Option<(String, Subscription)>)
        ensures
            match r {
                Some(p) => old(self)@.len() > 0 && p == old(self)@[0] && final(self)@ == old(
                    self,
                )@.drop_first(),
                None => old(self)@.len() == 0 && final(self)@ == old(self)@,
            },
    {
        if self.items.len() == 0 {
            None
        } else {
            Some(self.items.remove(0))
        }
    }

    pub fn len(&self) -> (n: usize)
        ensures
            n == self@.len(),
    {
        self.items.len()
    }
}

/// The record that accepting a job stores: every field from the feed item,
/// state `Pending`, `added_at` set to the insertion time.
pub open spec fn spec_new_task(sub: Subscription, now: u64) -> Task {
    Task {
        url: sub.magnet,
        anime_title: sub.anime.name,
        weekday: sub.anime.weekday,
        air_date: sub.anime.air_date,
        bangumi_id: sub.anime.bangumi_tv_id,
        added_at: now,
        state: TaskState::Pending,
    }
}

/// Accept a job: store a `Pending` record under its name — preserving
/// `added_at` from any record already stored there — and enqueue the job
/// for the workers.
pub fn pool_add(tasks: &mut Tasks, queue: &mut JobQueue, name: &String, sub: &Subscription, now: u64)
    requires
        old(tasks).wf(),
    ensures
        final(tasks).wf(),
        final(tasks)@ == old(tasks)@.insert(
            name@,
            merge_insert(
                if old(tasks)@.contains_key(name@) {
                    Some(old(tasks)@[name@])
                } else {
                    None
                },
                spec_new_task(*sub, now),
            ),
        ),
        final(queue)@ == old(queue)@.push((*name, *sub)),
{
    let task = Task {
        url: sub.magnet.clone(),
        anime_title: sub.anime.name.clone(),
        weekday: sub.anime.weekday.clone(),
        air_date: sub.anime.air_date,
        bangumi_id: sub.anime.bangumi_tv_id,
        added_at: now,
        state: TaskState::Pending,
    };
    tasks.insert(name.clone(), task);
    queue.enqueue(name.clone(), sub.duplicate());
}

/// A job accepted under a previously-unseen name starts `Pending`, and its
/// `added_at` is the insertion time.
pub proof fn lemma_add_fresh_starts_pending(
    m: Map<Seq<char>, Task>,
    name: Seq<char>,
    sub: Subscription,
    now: u64,
)
    requires
        !m.contains_key(name),
    ensures
        ({
            let m2 = m.insert(name, merge_insert(None, spec_new_task(sub, now)));
            m2[name].state is Pending && m2[name].added_at == now
        }),
{
}

/// Re-inserting a job under an existing name preserves the original
/// `added_at`; everything else, the state included, is taken afresh from
/// the explicit re-add. Only such an explicit re-add moves a `Finished` or
/// `Blocked` record back to `Pending`; the state-only updates of the other
/// components never do.
pub proof fn lemma_readd_preserves_added_at(
    m: Map<Seq<char>, Task>,
    name: Seq<char>,
    sub: Subscription,
    now: u64,
)
    requires
        m.contains_key(name),
    ensures
        ({
            let m2 = m.insert(name, merge_insert(Some(m[name]), spec_new_task(sub, now)));
            m2[name].added_at == m[name].added_at && m2[name].state is Pending
        }),
        forall|s: TaskState| #[trigger]
            spec_update_state(m, name, s)[name].added_at == m[name].added_at,
{
}

/// One round of the feed loop for one item: a name already on the
/// seen-items record is skipped; a new name is accepted into the pool and
/// then put on record, so the next round skips it.
pub fn ingest_item(
    tasks: &mut Tasks,
    queue: &mut JobQueue,
    seen: &mut crate::seen::Subscribe,
    name: &String,
    sub: &Subscription,
    now: u64,
) -> (added: bool)
    requires
        old(tasks).wf(),
        old(seen).wf(),
    ensures
        final(tasks).wf(),
        final(seen).wf(),
        added == !old(seen)@.contains_key(name@),
        !added ==> *final(tasks) == *old(tasks) && *final(queue) == *old(queue) && *final(seen)
            == *old(seen),
        added ==> final(seen)@ == old(seen)@.insert(name@, now) && final(tasks)@ == old(
            tasks,
        )@.insert(
            name@,
            merge_insert(
                if old(tasks)@.contains_key(name@) {
                    Some(old(tasks)@[name@])
                } else {
                    None
                },
                spec_new_task(*sub, now),
            ),
        ) && final(queue)@ == old(queue)@.push((*name, *sub)),
{
    match seen.get(name.clone()) {
        Some(_) => false,
        None => {
            pool_add(tasks, queue, name, sub, now);
            seen.insert(name.clone(), now);
            true
        },
    }
}

/// The states a startup scan must resume: jobs a prior run left queued or
/// mid-transfer.
pub open spec fn recoverable(s: TaskState) -> bool {
    s is Pending || s is Downloading
}

/// Whether a feed item carries exactly the data of a stored record, with an
/// empty series-feed address (the stored record does not keep one).
pub open spec fn sub_matches_task(sub: Subscription, t: Task) -> bool {
    &&& sub.magnet@ == t.url@
    &&& sub.anime.name@ == t.anime_title@
    &&& sub.anime.weekday@ == t.weekday@
    &&& sub.anime.air_date == t.air_date
    &&& sub.anime.rss@ == Seq::<char>::empty()
    &&& sub.anime.bangumi_tv_id == t.bangumi_id
}

/// The startup recovery scan: exactly the jobs whose stored state is
/// `Pending` or `Downloading`, each once, rebuilt as feed items ready to be
/// re-enqueued. The records themselves are not touched.
pub fn recovery_plan(tasks: &Tasks) -> (r: Vec<(String, Subscription)>)
    requires
        tasks.wf(),
    ensures
        forall|i: int|
            0 <= i < r@.len() ==> tasks@.contains_key((#[trigger] r@[i]).0@) && recoverable(
                tasks@[r@[i].0@].state,
            ) && sub_matches_task(r@[i].1, tasks@[r@[i].0@]),
        forall|k: Seq<char>|
            tasks@.contains_key(k) && recoverable(tasks@[k].state) ==> exists|i: int|
                0 <= i < r@.len() && (#[trigger] r@[i]).0@ == k,
        forall|i: int, j: int|
            0 <= i < j < r@.len() ==> (#[trigger] r@[i]).0@ != (#[trigger] r@[j]).0@,
{
    let filter = StateFilter {
        pending: true,
        downloading: true,
        blocked: false,
        downloaded: false,
        finished: false,
    };
    let found = tasks.get_with_state(&filter);
    let mut r: Vec<(String, Subscription)> = Vec::new();
    let n = found.len();
    for i in 0..n
        invariant
            n == found@.len(),
            r@.len() == i,
            forall|a: int|
                0 <= a < i ==> (#[trigger] r@[a]).0@ == found@[a].0@ && sub_matches_task(
                    r@[a].1,
                    found@[a].1,
                ),
            forall|a: int|
                0 <= a < found@.len() ==> tasks@.contains_key((#[trigger] found@[a]).0@)
                    && tasks@[found@[a].0@] == found@[a].1 && filter.spec_matches(
                    found@[a].1.state,
                ),
            forall|a: int, b: int|
                0 <= a < b < found@.len() ==> (#[trigger] found@[a]).0@ != (
                #[trigger] found@[b]).0@,
    {
        let t = &found[i].1;
        let sub = Subscription {
            magnet: t.url.clone(),
            anime: Anime {
                rss: String::new(),
                weekday: t.weekday.clone(),
                name: t.anime_title.clone(),
                air_date: t.air_date,
                bangumi_tv_id: t.bangumi_id,
            },
        };
        r.push((found[i].0.clone(), sub));
    }
    proof {
        assert forall|k: Seq<char>|
            tasks@.contains_key(k) && recoverable(tasks@[k].state) implies exists|i: int|
            0 <= i < r@.len() && (#[trigger] r@[i]).0@ == k by {
            assert(filter.spec_matches(tasks@[k].state));
            let i = choose|i: int| 0 <= i < found@.len() && (#[trigger] found@[i]).0@ == k;
            assert(r@[i].0@ == k);
        }
    }
    r
}

/// What the engine reported, or failed to report, while a worker raced job
/// submission against the timeout.
pub enum SubmitOutcome {
    /// The timer fired before the engine answered.
    TimedOut,
    /// The engine reported an error.
    Failed { error: String },
    /// The engine accepted the job and assigned this id.
    Submitted { id: usize },
}

/// What happened while a worker raced the running transfer against the
/// timeout.
pub enum TransferOutcome {
    /// The timer fired before the transfer completed.
    TimedOut,
    /// The engine reported a transfer error.
    Failed { error: String },
    /// The transfer completed; the engine named the payload (when it could)
    /// and its content hash.
    Completed { file_name: Option<String>, info_hash: String },
}

/// The worker's decision after the submission race. A timeout marks the job
/// `Blocked` (terminal until an operator intervenes); an engine failure
/// leaves the record untouched — the job stays `Pending` and is picked up
/// again by recovery at the next restart; on success the job proceeds as
/// `Downloading`.
pub fn handle_submit(tasks: &mut Tasks, name: &String, outcome: &SubmitOutcome) -> (proceed: bool)
    requires
        old(tasks).wf(),
    ensures
        final(tasks).wf(),
        proceed == (outcome is Submitted),
        outcome is TimedOut ==> final(tasks)@ == spec_update_state(
            old(tasks)@,
            name@,
            TaskState::Blocked,
        ),
        outcome is Failed ==> final(tasks)@ == old(tasks)@,
        outcome is Submitted ==> final(tasks)@ == spec_update_state(
            old(tasks)@,
            name@,
            TaskState::Downloading,
        ),
{
    match outcome {
        SubmitOutcome::TimedOut => {
            tasks.update_state(name.clone(), TaskState::Blocked);
            false
        },
        SubmitOutcome::Failed { .. } => false,
        SubmitOutcome::Submitted { .. } => {
            tasks.update_state(name.clone(), TaskState::Downloading);
            true
        },
    }
}

/// What the worker asks of the engine after the transfer race.
#[derive(Clone, Copy, PartialEq, Eq, Debug)]
pub struct TransferActions {
    /// Delete the engine-side resource by id (best effort).
    pub delete_engine_resource: bool,
    /// Ask the engine to pause seeding the completed resource (best
    /// effort).
    pub pause_seeding: bool,
}

/// Whether a state is `Downloaded` with the payload path joined from the
/// download directory and the engine-reported name (empty when the engine
/// had none), and the engine-reported content hash.
pub open spec fn downloaded_state_matches(
    s: TaskState,
    file_name: Option<String>,
    info_hash: String,
    dir: Seq<char>,
) -> bool {
    match s {
        TaskState::Downloaded { file_path, info_hash: ih } => {
            &&& file_path@ == spec_join_path(
                dir,
                match file_name {
                    Some(n) => n@,
                    None => Seq::<char>::empty(),
                },
            )
            &&& ih@ == info_hash@
        },
        _ => false,
    }
}

/// The worker's decision after the transfer race.
///
/// A transfer that exceeds the maximum download duration leaves the job
/// `Blocked` and instructs a best-effort delete of the engine resource; the
/// worker itself never throws. A transfer error leaves the record as it is
/// (`Downloading`, recovered at the next restart). A completed transfer is
/// recorded as `Downloaded`, with its payload path and content hash; when
/// the configured seed time is zero the engine is asked — best effort — to
/// pause the resource.
pub fn handle_transfer(
    tasks: &mut Tasks,
    name: &String,
    outcome: &TransferOutcome,
    seed_seconds: u64,
    download_dir: &str,
) -> (acts: TransferActions)
    requires
        old(tasks).wf(),
    ensures
        final(tasks).wf(),
        acts.delete_engine_resource == (outcome is TimedOut),
        acts.pause_seeding == (outcome is Completed && seed_seconds == 0),
        outcome is TimedOut ==> final(tasks)@ == spec_update_state(
            old(tasks)@,
            name@,
            TaskState::Blocked,
        ),
        outcome is Failed ==> final(tasks)@ == old(tasks)@,
        outcome matches TransferOutcome::Completed { file_name, info_hash } ==> (old(
            tasks,
        )@.contains_key(name@) ==> final(tasks)@.contains_key(name@)
            && downloaded_state_matches(
            final(tasks)@[name@].state,
            *file_name,
            *info_hash,
            download_dir@,
        ) && final(tasks)@ == old(tasks)@.insert(
            name@,
            (Task { state: final(tasks)@[name@].state, ..old(tasks)@[name@] }),
        )),
        (outcome is Completed && !old(tasks)@.contains_key(name@)) ==> final(tasks)@ == old(
            tasks,
        )@,
{
    match outcome {
        TransferOutcome::TimedOut => {
            tasks.update_state(name.clone(), TaskState::Blocked);
            TransferActions { delete_engine_resource: true, pause_seeding: false }
        },
        TransferOutcome::Failed { .. } => TransferActions {
            delete_engine_resource: false,
            pause_seeding: false,
        },
        TransferOutcome::Completed { file_name, info_hash } => {
            let named: &str = match file_name {
                Some(n) => n.as_str(),
                None => "",
            };
            proof {
                reveal_strlit("");
                assert(""@ =~= Seq::<char>::empty());
            }
            let file_path = join_path(download_dir, named);
            tasks.update_state(
                name.clone(),
                TaskState::Downloaded { file_path, info_hash: info_hash.clone() },
            );
            TransferActions {
                delete_engine_resource: false,
                pause_seeding: seed_seconds == 0,
            }
        },
    }
}

/// Lifecycle transitions are monotonic: each move a worker, the upload
/// coordinator or the cleanup sweep makes — `Pending` to `Downloading`,
/// either of those to `Blocked`, `Downloading` to `Downloaded`,
/// `Downloaded` to `Finished` — never lowers a job's position along the
/// lifecycle.
pub proof fn lemma_transitions_monotonic(before: TaskState, after: TaskState)
    requires
        (before is Pending && (after is Downloading || after is Blocked)) || (before
            is Downloading && (after is Blocked || after is Downloaded)) || (before is Downloaded
            && after is Finished),
    ensures
        after.rank() >= before.rank(),
{
}

} // verus!

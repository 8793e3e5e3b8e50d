use vstd::prelude::*;

use crate::job::{
    all_unregistered, has_id, ids_unique, on_channel, unregistered, with_handle, without_id,
    CronJobInfo, JobId,
};

verus! {

/// Why an operation of the job store failed.
#[derive(Debug)]
pub enum CronError {
    /// The timer engine refused the job (an invalid cron expression, most often).
    Registration(String),
    /// A persisted snapshot held two records with one id, or a record under another id's key.
    CorruptSnapshot,
}

/// One persisted record: the key it is stored under, and the job.
pub type SnapshotEntry = (JobId, CronJobInfo);

/// What the timer engine answered to one registration: its handle, or why it refused.
pub type Registration = Result<JobId, String>;

/// The handle that a registration outcome leaves on the job.
pub open spec fn registered_handle(r: Registration) -> Option<JobId> {
    match r {
        Ok(h) => Some(h),
        Err(_) => None,
    }
}

/// The persisted form of a store: each job, as it stands, under its own id.
pub open spec fn snapshot_of(jobs: Seq<CronJobInfo>) -> Seq<SnapshotEntry> {
    jobs.map_values(|j: CronJobInfo| (j.id, j))
}

/// The jobs that a snapshot holds, in its order.
pub open spec fn records_of(entries: Seq<SnapshotEntry>) -> Seq<CronJobInfo> {
    entries.map_values(|e: SnapshotEntry| e.1)
}

/// The timer handle of the job `id`, if the store has that job and it is registered.
pub open spec fn handle_of(jobs: Seq<CronJobInfo>, id: JobId) -> Option<JobId> {
    if has_id(jobs, id) {
        jobs[choose|i: int| 0 <= i < jobs.len() && #[trigger] jobs[i].id == id].scheduler_id
    } else {
        None
    }
}

/// The store that loading a valid snapshot gives: its records, all unregistered.
pub open spec fn loaded_from(entries: Seq<SnapshotEntry>) -> Seq<CronJobInfo> {
    all_unregistered(records_of(entries))
}

/// A snapshot can be loaded: each record sits under its own id, and no id repeats.
pub open spec fn snapshot_valid(entries: Seq<SnapshotEntry>) -> bool {
    &&& forall|i: int| 0 <= i < entries.len() ==> #[trigger] entries[i].0 == entries[i].1.id
    &&& ids_unique(records_of(entries))
}

/// The ids of the jobs whose registration failed, in the order of the jobs.
pub open spec fn failed_ids(jobs: Seq<CronJobInfo>, results: Seq<Registration>) -> Seq<JobId>
    decreases results.len(),
{
    if results.len() == 0 || jobs.len() == 0 {
        Seq::empty()
    } else {
        let rest = failed_ids(jobs.drop_last(), results.drop_last());
        if registered_handle(results.last()) is None {
            rest.push(jobs.last().id)
        } else {
            rest
        }
    }
}

/// The job store: every recurring job that this process knows, keyed by a unique id.
///
/// The timer engine, the persistence file and the application context live outside;
/// this type decides what each of them is handed and keeps the store consistent.
pub struct CronManager {
    jobs: Vec<CronJobInfo>,
}

impl View for CronManager {
    type V = Seq<CronJobInfo>;

    closed spec fn view(&self) -> Seq<CronJobInfo> {
        self.jobs@
    }
}

/// Filtering keeps ids unique.
proof fn lemma_filter_unique(jobs: Seq<CronJobInfo>, pred: spec_fn(CronJobInfo) -> bool)
    requires
        ids_unique(jobs),
    ensures
        ids_unique(jobs.filter(pred)),
    decreases jobs.len(),
{
    reveal(Seq::filter);
    if jobs.len() > 0 {
        let d = jobs.drop_last();
        lemma_filter_unique(d, pred);
        if pred(jobs.last()) {
            let f = d.filter(pred);
            assert forall|k: int| 0 <= k < f.len() implies f[k].id != jobs.last().id by {
                d.lemma_filter_contains_rev(pred, f[k]);
            }
            assert(ids_unique(f.push(jobs.last())));
        }
    }
}

/// Filtering by a predicate that every element meets changes nothing.
proof fn lemma_filter_all(jobs: Seq<CronJobInfo>, pred: spec_fn(CronJobInfo) -> bool)
    requires
        forall|i: int| 0 <= i < jobs.len() ==> pred(#[trigger] jobs[i]),
    ensures
        jobs.filter(pred) == jobs,
    decreases jobs.len(),
{
    reveal(Seq::filter);
    if jobs.len() > 0 {
        let d = jobs.drop_last();
        lemma_filter_all(d, pred);
        assert(jobs.filter(pred) =~= jobs);
    }
}

/// The records of a snapshot are the jobs themselves.
proof fn lemma_records_of_snapshot(jobs: Seq<CronJobInfo>)
    ensures
        records_of(snapshot_of(jobs)) == jobs,
{
    assert(records_of(snapshot_of(jobs)) =~= jobs);
}

/// Clearing handles keeps ids unique.
proof fn lemma_unregistered_unique(jobs: Seq<CronJobInfo>)
    requires
        ids_unique(jobs),
    ensures
        ids_unique(all_unregistered(jobs)),
{
    let u = all_unregistered(jobs);
    assert forall|i: int, k: int|
        0 <= i < u.len() && 0 <= k < u.len() && i != k implies #[trigger] u[i].id
        != #[trigger] u[k].id by {
        assert(u[i].id == jobs[i].id);
        assert(u[k].id == jobs[k].id);
    }
}

/// Decides whether a snapshot read from disk can be loaded.
fn snapshot_is_valid(entries: &Vec<SnapshotEntry>) -> (r: bool)
    ensures
        r == snapshot_valid(entries@),
{
    let ghost recs = records_of(entries@);
    let mut i: usize = 0;
    while i < entries.len()
        invariant
            0 <= i <= entries.len(),
            recs == records_of(entries@),
            forall|a: int| 0 <= a < i ==> #[trigger] entries@[a].0 == entries@[a].1.id,
            forall|a: int, b: int|
                0 <= a < i && 0 <= b < i && a != b ==> #[trigger] recs[a].id != #[trigger] recs[b].id,
        decreases entries.len() - i,
    {
        if entries[i].0 != entries[i].1.id {
            return false;
        }
        let mut k: usize = 0;
        while k < i
            invariant
                0 <= k <= i < entries.len(),
                recs == records_of(entries@),
                forall|b: int| 0 <= b < k ==> #[trigger] recs[b].id != recs[i as int].id,
            decreases i - k,
        {
            if entries[k].1.id == entries[i].1.id {
                assert(recs[k as int].id == recs[i as int].id);
                return false;
            }
            k += 1;
        }
        i += 1;
    }
    true
}

impl CronManager {
    /// The store holds no two jobs with one id.
    pub open spec fn wf(&self) -> bool {
        ids_unique(self@)
    }

    /// An empty store.
    pub fn new() -> (r: CronManager)
        ensures
            r.wf(),
            r@ == Seq::<CronJobInfo>::empty(),
    {
        CronManager { jobs: Vec::new() }
    }

    /// Records a new job once the timer engine has answered its registration.
    ///
    /// On `Ok(handle)` the job is stored with that handle, in place of any job with
    /// its id. The result is its id, and the handle of the job it replaced, which must
    /// be deregistered. On `Err` nothing is stored.
    pub fn add_job(&mut self, info: CronJobInfo, registration: Registration) -> (r: Result<
        (JobId, Option<JobId>),
        CronError,
    >)
        requires
            old(self).wf(),
        ensures
            final(self).wf(),
            match registration {
                Ok(h) => {
                    &&& r == Ok::<(JobId, Option<JobId>), CronError>(
                        (info.id, handle_of(old(self)@, info.id)),
                    )
                    &&& final(self)@ == without_id(old(self)@, info.id).push(
                        with_handle(info, Some(h)),
                    )
                },
                Err(e) => {
                    &&& r matches Err(CronError::Registration(m)) && m == e
                    &&& final(self)@ == old(self)@
                },
            },
    {
        match registration {
            Err(e) => Err(CronError::Registration(e)),
            Ok(h) => {
                let id = info.id;
                let replaced = self.remove_job(id);
                proof {
                    if has_id(old(self)@, id) {
                        let w = choose|i: int| 0 <= i < old(self)@.len() && #[trigger] old(self)@[i].id == id;
                        assert(old(self)@[w].id == id);
                    }
                }
                let mut info = info;
                info.scheduler_id = Some(h);
                proof {
                    let f = |j: CronJobInfo| j.id != id;
                    assert forall|k: int| 0 <= k < self.jobs@.len() implies self.jobs@[k].id
                        != id by {
                        assert(f(self.jobs@[k]));
                    }
                }
                self.jobs.push(info);
                Ok((id, replaced))
            },
        }
    }

    /// Takes the job `id` out of the store, and hands back the timer handle that must be
    /// deregistered, if the job had one. An unknown id changes nothing.
    pub fn remove_job(&mut self, id: JobId) -> (r: Option<JobId>)
        requires
            old(self).wf(),
        ensures
            final(self).wf(),
            final(self)@ == without_id(old(self)@, id),
            !has_id(old(self)@, id) ==> final(self)@ == old(self)@ && r is None,
            forall|i: int|
                0 <= i < old(self)@.len() && #[trigger] old(self)@[i].id == id ==> r
                    == old(self)@[i].scheduler_id,
            forall|i: int| 0 <= i < final(self)@.len() ==> #[trigger] final(self)@[i].id != id,
    {
        let ghost pred: spec_fn(CronJobInfo) -> bool = |j: CronJobInfo| j.id != id;
        let mut kept: Vec<CronJobInfo> = Vec::new();
        let mut handle: Option<JobId> = None;
        let mut i: usize = 0;
        while i < self.jobs.len()
            invariant
                0 <= i <= self.jobs.len(),
                ids_unique(self.jobs@),
                pred == (|j: CronJobInfo| j.id != id),
                kept@ == self.jobs@.take(i as int).filter(pred),
                forall|k: int| 0 <= k < i && #[trigger] self.jobs@[k].id == id ==> handle
                    == self.jobs@[k].scheduler_id,
                (forall|k: int| 0 <= k < i ==> #[trigger] self.jobs@[k].id != id) ==> handle
                    is None,
            decreases self.jobs.len() - i,
        {
            let j = self.jobs[i].clone();
            proof {
                assert(self.jobs@.take(i + 1) =~= self.jobs@.take(i as int).push(j));
                self.jobs@.take(i as int).lemma_filter_push(j, pred);
                assert(pred(j) == (j.id != id));
            }
            if j.id == id {
                handle = j.scheduler_id;
            } else {
                kept.push(j);
            }
            i += 1;
        }
        proof {
            assert(self.jobs@.take(i as int) =~= self.jobs@);
            lemma_filter_unique(self.jobs@, pred);
            if !has_id(self.jobs@, id) {
                lemma_filter_all(self.jobs@, pred);
            }
            assert forall|k: int| 0 <= k < kept@.len() implies #[trigger] kept@[k].id != id by {
                self.jobs@.lemma_filter_pred(pred, k);
            }
        }
        self.jobs = kept;
        handle
    }

    /// The jobs that target `channel_id`, in store order.
    pub fn get_jobs_for_channel(&self, channel_id: u64) -> (r: Vec<CronJobInfo>)
        ensures
            r@ == on_channel(self@, channel_id),
            self.wf() ==> ids_unique(r@),
    {
        let ghost pred: spec_fn(CronJobInfo) -> bool = |j: CronJobInfo| j.channel_id == channel_id;
        let mut out: Vec<CronJobInfo> = Vec::new();
        let mut i: usize = 0;
        while i < self.jobs.len()
            invariant
                0 <= i <= self.jobs.len(),
                pred == (|j: CronJobInfo| j.channel_id == channel_id),
                out@ == self.jobs@.take(i as int).filter(pred),
            decreases self.jobs.len() - i,
        {
            let j = self.jobs[i].clone();
            proof {
                assert(self.jobs@.take(i + 1) =~= self.jobs@.take(i as int).push(j));
                self.jobs@.take(i as int).lemma_filter_push(j, pred);
                assert(pred(j) == (j.channel_id == channel_id));
            }
            if j.channel_id == channel_id {
                out.push(j);
            }
            i += 1;
        }
        proof {
            assert(self.jobs@.take(i as int) =~= self.jobs@);
            if self.wf() {
                lemma_filter_unique(self.jobs@, pred);
            }
        }
        out
    }

    /// What is written to disk: every job as it stands, handle included, under its own
    /// id, in store order.
    pub fn snapshot(&self) -> (r: Vec<SnapshotEntry>)
        ensures
            r@ == snapshot_of(self@),
    {
        let mut out: Vec<SnapshotEntry> = Vec::new();
        let mut i: usize = 0;
        while i < self.jobs.len()
            invariant
                0 <= i <= self.jobs.len(),
                out@.len() == i,
                forall|k: int| 0 <= k < i ==> #[trigger] out@[k] == (self.jobs@[k].id, self.jobs@[k]),
            decreases self.jobs.len() - i,
        {
            let j = self.jobs[i].clone();
            out.push((j.id, j));
            i += 1;
        }
        assert(out@ =~= snapshot_of(self@));
        out
    }

    /// Replaces the store with a snapshot read from disk; `None` stands for no file.
    ///
    /// No file gives an empty store. A valid snapshot gives its records, all of them
    /// unregistered, and their number. A corrupt one gives an empty store and an error.
    /// It is meant for startup, before any job is added: it does not merge.
    pub fn load_from_disk(&mut self, stored: Option<Vec<SnapshotEntry>>) -> (r: Result<
        usize,
        CronError,
    >)
        ensures
            final(self).wf(),
            match stored {
                None => r == Ok::<usize, CronError>(0) && final(self)@ == Seq::<
                    CronJobInfo,
                >::empty(),
                Some(entries) => if snapshot_valid(entries@) {
                    &&& r == Ok::<usize, CronError>(entries@.len() as usize)
                    &&& final(self)@ == loaded_from(entries@)
                } else {
                    &&& r matches Err(CronError::CorruptSnapshot)
                    &&& final(self)@ == Seq::<CronJobInfo>::empty()
                },
            },
    {
        match stored {
            None => {
                self.jobs = Vec::new();
                Ok(0)
            },
            Some(entries) => {
                if !snapshot_is_valid(&entries) {
                    self.jobs = Vec::new();
                    return Err(CronError::CorruptSnapshot);
                }
                let mut loaded: Vec<CronJobInfo> = Vec::new();
                let mut i: usize = 0;
                while i < entries.len()
                    invariant
                        0 <= i <= entries.len(),
                        loaded@.len() == i,
                        forall|k: int|
                            0 <= k < i ==> #[trigger] loaded@[k] == unregistered(entries@[k].1),
                    decreases entries.len() - i,
                {
                    let mut j = entries[i].1.clone();
                    j.scheduler_id = None;
                    loaded.push(j);
                    i += 1;
                }
                proof {
                    assert(loaded@ =~= all_unregistered(records_of(entries@)));
                    lemma_unregistered_unique(records_of(entries@));
                }
                self.jobs = loaded;
                Ok(entries.len())
            },
        }
    }

    /// The jobs to hand to the timer engine at startup: all of them, in store order.
    pub fn registration_requests(&self) -> (r: Vec<CronJobInfo>)
        ensures
            r@ == self@,
    {
        self.jobs.clone()
    }

    /// Records what the timer engine answered to the registration of each job, the
    /// answers given in store order, and hands back the ids of the jobs it refused.
    ///
    /// A refused job stays in the store without a handle; the others are not affected
    /// by it.
    pub fn init(&mut self, results: Vec<Registration>) -> (failed: Vec<JobId>)
        requires
            old(self).wf(),
            results@.len() == old(self)@.len(),
        ensures
            final(self).wf(),
            final(self)@.len() == old(self)@.len(),
            forall|i: int|
                0 <= i < old(self)@.len() ==> #[trigger] final(self)@[i] == with_handle(
                    old(self)@[i],
                    registered_handle(results@[i]),
                ),
            failed@ == failed_ids(old(self)@, results@),
    {
        let mut out: Vec<CronJobInfo> = Vec::new();
        let mut failed: Vec<JobId> = Vec::new();
        let mut i: usize = 0;
        while i < self.jobs.len()
            invariant
                0 <= i <= self.jobs.len(),
                results@.len() == self.jobs@.len(),
                out@.len() == i,
                forall|k: int|
                    0 <= k < i ==> #[trigger] out@[k] == with_handle(
                        self.jobs@[k],
                        registered_handle(results@[k]),
                    ),
                failed@ == failed_ids(self.jobs@.take(i as int), results@.take(i as int)),
            decreases self.jobs.len() - i,
        {
            let mut j = self.jobs[i].clone();
            proof {
                assert(self.jobs@.take(i + 1).drop_last() =~= self.jobs@.take(i as int));
                assert(results@.take(i + 1).drop_last() =~= results@.take(i as int));
            }
            match &results[i] {
                Ok(h) => {
                    j.scheduler_id = Some(*h);
                },
                Err(_) => {
                    j.scheduler_id = None;
                    failed.push(j.id);
                },
            }
            out.push(j);
            i += 1;
        }
        proof {
            assert(self.jobs@.take(i as int) =~= self.jobs@);
            assert(results@.take(i as int) =~= results@);
            let o = out@;
            assert forall|a: int, b: int|
                0 <= a < o.len() && 0 <= b < o.len() && a != b implies #[trigger] o[a].id
                != #[trigger] o[b].id by {
                assert(o[a].id == self.jobs@[a].id);
                assert(o[b].id == self.jobs@[b].id);
            }
        }
        self.jobs = out;
        failed
    }
}

/// Saving a store, loading what was saved and saving again: the snapshot of a store
/// with unique ids always loads, the second snapshot holds the same records as the
/// first under the same keys, with every durable field kept and no handle, and from
/// then on loading and saving change nothing.
pub proof fn lemma_save_load_save(jobs: Seq<CronJobInfo>)
    requires
        ids_unique(jobs),
    ensures
        snapshot_valid(snapshot_of(jobs)),
        ids_unique(loaded_from(snapshot_of(jobs))),
        snapshot_valid(snapshot_of(loaded_from(snapshot_of(jobs)))),
        snapshot_of(loaded_from(snapshot_of(jobs))).len() == snapshot_of(jobs).len(),
        forall|i: int|
            0 <= i < snapshot_of(jobs).len() ==> #[trigger] snapshot_of(
                loaded_from(snapshot_of(jobs)),
            )[i] == (snapshot_of(jobs)[i].0, unregistered(snapshot_of(jobs)[i].1)),
        snapshot_of(loaded_from(snapshot_of(loaded_from(snapshot_of(jobs))))) == snapshot_of(
            loaded_from(snapshot_of(jobs)),
        ),
{
    let snap = snapshot_of(jobs);
    lemma_records_of_snapshot(jobs);
    assert forall|i: int| 0 <= i < snap.len() implies #[trigger] snap[i].0 == snap[i].1.id by {}
    let once = loaded_from(snap);
    assert(once == all_unregistered(jobs));
    lemma_unregistered_unique(jobs);
    let snap2 = snapshot_of(once);
    lemma_records_of_snapshot(once);
    assert forall|i: int| 0 <= i < snap2.len() implies #[trigger] snap2[i].0 == snap2[i].1.id by {}
    let twice = loaded_from(snap2);
    assert(twice =~= once);
}

/// Right after a job is added, the jobs of its channel hold it exactly once: the
/// entries with its id among them are the stored job alone.
pub proof fn lemma_add_then_query(jobs: Seq<CronJobInfo>, info: CronJobInfo, handle: JobId)
    ensures
        on_channel(without_id(jobs, info.id).push(with_handle(info, Some(handle))), info.channel_id).filter(
            |j: CronJobInfo| j.id == info.id,
        ) == seq![with_handle(info, Some(handle))],
{
    let stored = with_handle(info, Some(handle));
    let rest = without_id(jobs, info.id);
    let ch = |j: CronJobInfo| j.channel_id == info.channel_id;
    let same = |j: CronJobInfo| j.id == info.id;
    let not_same = |j: CronJobInfo| j.id != info.id;
    rest.lemma_filter_push(stored, ch);
    let q = rest.filter(ch);
    q.lemma_filter_push(stored, same);
    assert forall|k: int| 0 <= k < q.len() implies !same(#[trigger] q[k]) by {
        rest.lemma_filter_contains_rev(ch, q[k]);
        let m = choose|m: int| 0 <= m < rest.len() && rest[m] == q[k];
        jobs.lemma_filter_pred(not_same, m);
    }
    lemma_filter_none(q, same);
    assert(seq![stored] =~= Seq::<CronJobInfo>::empty().push(stored));
}

/// Filtering by a predicate that no element meets leaves nothing.
proof fn lemma_filter_none(jobs: Seq<CronJobInfo>, pred: spec_fn(CronJobInfo) -> bool)
    requires
        forall|i: int| 0 <= i < jobs.len() ==> !pred(#[trigger] jobs[i]),
    ensures
        jobs.filter(pred) == Seq::<CronJobInfo>::empty(),
    decreases jobs.len(),
{
    reveal(Seq::filter);
    if jobs.len() > 0 {
        lemma_filter_none(jobs.drop_last(), pred);
    }
}

} // verus!

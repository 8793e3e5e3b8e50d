use vstd::prelude::*;

verus! {

/// Durable identifier of a job or of a timer registration: the 128 bits of a UUID.
pub type JobId = u128;

/// A recurring action: when (`cron_expr`) and what (`prompt`) to run, for which channel.
///
/// `scheduler_id` is the volatile handle that the timer engine gave when the job was
/// registered; it is `None` while the job is not live in the engine.
#[derive(Debug, PartialEq, Eq)]
pub struct CronJobInfo {
    pub id: JobId,
    pub scheduler_id: Option<JobId>,
    pub channel_id: u64,
    pub cron_expr: String,
    pub prompt: String,
    pub creator_id: u64,
    pub description: String,
}

impl Clone for CronJobInfo {
    fn clone(&self) -> (r: Self)
        ensures
            r == *self,
    {
        CronJobInfo {
            id: self.id,
            scheduler_id: self.scheduler_id,
            channel_id: self.channel_id,
            cron_expr: self.cron_expr.clone(),
            prompt: self.prompt.clone(),
            creator_id: self.creator_id,
            description: self.description.clone(),
        }
    }
}

/// The same job, with its timer handle set to `handle`.
pub open spec fn with_handle(j: CronJobInfo, handle: Option<JobId>) -> CronJobInfo {
    CronJobInfo { scheduler_id: handle, ..j }
}

/// The form in which a job is written to disk: handles never survive a restart.
pub open spec fn unregistered(j: CronJobInfo) -> CronJobInfo {
    with_handle(j, None)
}

/// No two jobs share an id.
pub open spec fn ids_unique(jobs: Seq<CronJobInfo>) -> bool {
    forall|i: int, k: int|
        0 <= i < jobs.len() && 0 <= k < jobs.len() && i != k ==> #[trigger] jobs[i].id
            != #[trigger] jobs[k].id
}

/// Some job has the id `id`.
pub open spec fn has_id(jobs: Seq<CronJobInfo>, id: JobId) -> bool {
    exists|i: int| 0 <= i < jobs.len() && #[trigger] jobs[i].id == id
}

/// The jobs whose id is not `id`, in their order.
pub open spec fn without_id(jobs: Seq<CronJobInfo>, id: JobId) -> Seq<CronJobInfo> {
    jobs.filter(|j: CronJobInfo| j.id != id)
}

/// The jobs that target channel `channel`, in their order.
pub open spec fn on_channel(jobs: Seq<CronJobInfo>, channel: u64) -> Seq<CronJobInfo> {
    jobs.filter(|j: CronJobInfo| j.channel_id == channel)
}

/// Every job without its timer handle.
pub open spec fn all_unregistered(jobs: Seq<CronJobInfo>) -> Seq<CronJobInfo> {
    jobs.map_values(|j: CronJobInfo| unregistered(j))
}

} // verus!

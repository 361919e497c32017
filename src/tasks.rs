use vstd::prelude::*;

use crate::client::{run_result, ClientError};
use crate::job::{Job, JobModel};
use crate::status::Status;
use crate::transfer::{download_plan_spec, DownloadError, DownloadPlan, UploadError};

verus! {

/// The sender picks a queued job up.
pub fn sender_start(job: &mut Job)
    ensures
        final(job)@ == (JobModel { status: Status::Processing, ..old(job)@ }),
{
    job.status = Status::Processing;
}

/// The job after an upload attempt: `Submitted` with the remote id on
/// success, `Failed` on any upload error.
pub open spec fn sender_next(job: JobModel, outcome: Result<u32, UploadError>) -> JobModel {
    match outcome {
        Ok(id) => JobModel { status: Status::Submitted, dest_id: id, ..job },
        Err(_) => JobModel { status: Status::Failed, ..job },
    }
}

/// Records the outcome of uploading a job's files.
pub fn sender_finish(job: &mut Job, outcome: &Result<u32, UploadError>)
    ensures
        final(job)@ == sender_next(old(job)@, *outcome),
{
    match outcome {
        Ok(id) => {
            job.status = Status::Submitted;
            job.dest_id = *id;
        },
        Err(_) => {
            job.status = Status::Failed;
        },
    }
}

/// The status a submitted job takes after a download attempt; `JobNotReady`
/// leaves it as it was, to be tried again on the next pass.
pub open spec fn getter_next(current: Status, outcome: Result<(), DownloadError>) -> Status {
    match outcome {
        Ok(()) => Status::Completed,
        Err(DownloadError::JobNotReady) => current,
        Err(DownloadError::JobNotFound) => Status::Unknown,
        Err(DownloadError::JobCleaned) => Status::Cleaned,
        Err(DownloadError::JobFailed) => Status::Failed,
        Err(DownloadError::JobInvalid) => Status::Invalid,
        Err(_) => Status::Unknown,
    }
}

/// The status to store after a download attempt, or `None` when the job
/// stays as it is.
pub fn getter_status(outcome: &Result<(), DownloadError>) -> (r: Option<Status>)
    ensures
        outcome matches Err(DownloadError::JobNotReady) ==> r is None,
        !(outcome matches Err(DownloadError::JobNotReady)) ==> (r matches Some(s) && s
            == getter_next(Status::Submitted, *outcome)),
{
    match outcome {
        Ok(()) => Some(Status::Completed),
        Err(DownloadError::JobNotReady) => None,
        Err(DownloadError::JobNotFound) => Some(Status::Unknown),
        Err(DownloadError::JobCleaned) => Some(Status::Cleaned),
        Err(DownloadError::JobFailed) => Some(Status::Failed),
        Err(DownloadError::JobInvalid) => Some(Status::Invalid),
        Err(_) => Some(Status::Unknown),
    }
}

/// Records the outcome of a download attempt on a job.
pub fn getter_apply(job: &mut Job, outcome: &Result<(), DownloadError>)
    ensures
        final(job)@ == (JobModel { status: getter_next(old(job).status, *outcome), ..old(job)@ }),
{
    match getter_status(outcome) {
        Some(s) => {
            job.status = s;
        },
        None => {},
    }
}

/// The status a prepared payload takes after its script was dealt with: a
/// script that ran is `Completed` whatever its exit status; a missing or
/// refused script is the user's error (`Invalid`); failing to start `bash`
/// is the system's (`Failed`).
pub open spec fn runner_next(outcome: Result<(), ClientError>) -> Status {
    match outcome {
        Ok(()) => Status::Completed,
        Err(ClientError::Script) => Status::Completed,
        Err(ClientError::NoExecScript) => Status::Invalid,
        Err(ClientError::UnsafeScript { .. }) => Status::Invalid,
        Err(ClientError::Execution) => Status::Failed,
    }
}

/// The status a payload is given after `execute` returned `outcome`.
pub fn runner_status(outcome: &Result<(), ClientError>) -> (r: Status)
    ensures
        r == runner_next(*outcome),
{
    match outcome {
        Ok(()) => Status::Completed,
        Err(ClientError::Script) => Status::Completed,
        Err(ClientError::NoExecScript) => Status::Invalid,
        Err(ClientError::UnsafeScript { .. }) => Status::Invalid,
        Err(ClientError::Execution) => Status::Failed,
    }
}

/// A script that ran is `Completed` whether it exited with status zero or
/// not; when `bash` could not be started the payload is `Failed`; a missing
/// or refused script makes it `Invalid`.
pub proof fn lemma_runner_outcomes(reason: String)
    ensures
        runner_next(run_result(Some(true))) == Status::Completed,
        runner_next(run_result(Some(false))) == Status::Completed,
        runner_next(run_result(None)) == Status::Failed,
        runner_next(Err(ClientError::NoExecScript)) == Status::Invalid,
        runner_next(Err(ClientError::UnsafeScript { reason })) == Status::Invalid,
{
}

/// The status a job ends in after the remote client answered a download with
/// the HTTP status `code` (and, for `200`, the body was written).
pub open spec fn documented_status(code: u16, current: Status) -> Status {
    if code == 200 {
        Status::Completed
    } else if code == 202 {
        current
    } else if code == 204 {
        Status::Cleaned
    } else if code == 400 {
        Status::Invalid
    } else if code == 410 || code == 500 {
        Status::Failed
    } else {
        Status::Unknown
    }
}

/// The outcome a download gives for a plan, when writing the body succeeds.
pub open spec fn plan_outcome(plan: DownloadPlan, code: u16, body: String) -> Result<(), DownloadError> {
    match plan {
        DownloadPlan::WriteOutput => Ok(()),
        DownloadPlan::Fail(e) => Err(e),
        DownloadPlan::ReportUnexpected => Err(DownloadError::UnexpectedStatus { status: code, body }),
    }
}

/// Each HTTP status of a download response leaves the job in the state that
/// the protocol documents for it: `200` completes it, `202` leaves it as it
/// was, `204` cleans it, `400` makes it invalid, `410` and `500` fail it, and
/// `404` or any other status makes it unknown.
pub proof fn lemma_getter_follows_http_status(code: u16, current: Status, body: String)
    ensures
        getter_next(current, plan_outcome(download_plan_spec(code), code, body))
            == documented_status(code, current),
{
}

} // verus!

verus! {

/// A directory found under the data path, as the cleaner sees it.
#[derive(Debug)]
pub struct DirEntry {
    pub path: String,
    /// Whether the entry is a directory.
    pub is_dir: bool,
    /// Whole seconds since it was last modified; `None` when that is unknown.
    pub age: Option<u64>,
}

/// The contents of a `DirEntry`.
pub struct DirModel {
    pub path: Seq<char>,
    pub is_dir: bool,
    pub age: Option<u64>,
}

impl View for DirEntry {
    type V = DirModel;

    open spec fn view(&self) -> DirModel {
        DirModel { path: self.path@, is_dir: self.is_dir, age: self.age }
    }
}

/// The contents of a list of jobs.
pub open spec fn jobs_view(v: Seq<Job>) -> Seq<JobModel> {
    v.map_values(|j: Job| j@)
}

/// The contents of a list of directory entries.
pub open spec fn dirs_view(v: Seq<DirEntry>) -> Seq<DirModel> {
    v.map_values(|d: DirEntry| d@)
}

/// A directory that has been kept at least `max_age` seconds.
pub open spec fn expired(d: DirModel, max_age: u64) -> bool {
    d.is_dir && d.age is Some && d.age->0 >= max_age
}

/// Whether some job lives in `path`.
pub open spec fn has_owner(jobs: Seq<JobModel>, path: Seq<char>) -> bool {
    exists|k: int| 0 <= k < jobs.len() && #[trigger] jobs[k].loc == path
}

/// The cleaner removes a directory when it has expired and a job owns it;
/// orphan directories are left in place.
pub open spec fn reaped(jobs: Seq<JobModel>, d: DirModel, max_age: u64) -> bool {
    expired(d, max_age) && has_owner(jobs, d.path)
}

/// Whether an expired directory lies at `loc`.
pub open spec fn swept(dirs: Seq<DirModel>, max_age: u64, loc: Seq<char>) -> bool {
    exists|i: int| 0 <= i < dirs.len() && expired(#[trigger] dirs[i], max_age) && dirs[i].path == loc
}

/// The jobs after a cleaner pass: those whose directory expired are `Cleaned`.
pub open spec fn clean_jobs(jobs: Seq<JobModel>, dirs: Seq<DirModel>, max_age: u64) -> Seq<
    JobModel,
> {
    jobs.map_values(
        |j: JobModel|
            if swept(dirs, max_age, j.loc) {
                JobModel { status: Status::Cleaned, ..j }
            } else {
                j
            },
    )
}

/// The directories left after a cleaner pass.
pub open spec fn remaining_dirs(jobs: Seq<JobModel>, dirs: Seq<DirModel>, max_age: u64) -> Seq<
    DirModel,
> {
    dirs.filter(|d: DirModel| !reaped(jobs, d, max_age))
}

/// Whether an entry has been kept at least `max_age` seconds.
pub fn is_expired(d: &DirEntry, max_age: u64) -> (r: bool)
    ensures
        r == expired(d@, max_age),
{
    match d.age {
        Some(a) => d.is_dir && a >= max_age,
        None => false,
    }
}

/// Whether some job lives in `path`.
fn find_owner(jobs: &Vec<Job>, path: &str) -> (r: bool)
    ensures
        r == has_owner(jobs_view(jobs@), path@),
{
    let ghost v = jobs_view(jobs@);
    let mut k: usize = 0;
    while k < jobs.len()
        invariant
            v == jobs_view(jobs@),
            k <= jobs@.len(),
            forall|j: int| 0 <= j < k ==> #[trigger] v[j].loc != path@,
        decreases jobs@.len() - k,
    {
        if crate::text::same_text(jobs[k].loc.as_str(), path) {
            assert(v[k as int].loc == path@);
            return true;
        }
        k += 1;
    }
    false
}

/// Whether an expired directory lies at `loc`.
fn find_swept(dirs: &Vec<DirEntry>, max_age: u64, loc: &str) -> (r: bool)
    ensures
        r == swept(dirs_view(dirs@), max_age, loc@),
{
    let ghost v = dirs_view(dirs@);
    let mut i: usize = 0;
    while i < dirs.len()
        invariant
            v == dirs_view(dirs@),
            i <= dirs@.len(),
            forall|j: int| 0 <= j < i ==> !(expired(#[trigger] v[j], max_age) && v[j].path == loc@),
        decreases dirs@.len() - i,
    {
        if is_expired(&dirs[i], max_age) && crate::text::same_text(dirs[i].path.as_str(), loc) {
            assert(expired(v[i as int], max_age) && v[i as int].path == loc@);
            return true;
        }
        i += 1;
    }
    false
}

/// One cleaner pass over the entries of the data path and the jobs that own
/// them: every job whose directory expired becomes `Cleaned`, and the result
/// tells, entry by entry, whether to remove it (expired and owned).
pub fn clean_pass(jobs: &mut Vec<Job>, dirs: &Vec<DirEntry>, max_age: u64) -> (remove: Vec<bool>)
    ensures
        jobs_view(final(jobs)@) == clean_jobs(jobs_view(old(jobs)@), dirs_view(dirs@), max_age),
        remove@.len() == dirs@.len(),
        forall|i: int|
            0 <= i < dirs@.len() ==> #[trigger] remove@[i] == reaped(
                jobs_view(old(jobs)@),
                dirs@[i]@,
                max_age,
            ),
{
    let ghost j0 = jobs_view(jobs@);
    let mut remove: Vec<bool> = Vec::new();
    let mut i: usize = 0;
    while i < dirs.len()
        invariant
            j0 == jobs_view(jobs@),
            i <= dirs@.len(),
            remove@.len() == i,
            forall|k: int| 0 <= k < i ==> #[trigger] remove@[k] == reaped(j0, dirs@[k]@, max_age),
        decreases dirs@.len() - i,
    {
        let r = is_expired(&dirs[i], max_age) && find_owner(jobs, dirs[i].path.as_str());
        remove.push(r);
        i += 1;
    }
    let ghost dv = dirs_view(dirs@);
    let mut k: usize = 0;
    while k < jobs.len()
        invariant
            k <= jobs@.len(),
            jobs@.len() == j0.len(),
            dv == dirs_view(dirs@),
            forall|m: int|
                0 <= m < k ==> #[trigger] jobs_view(jobs@)[m] == clean_jobs(j0, dv, max_age)[m],
            forall|m: int| k <= m < jobs@.len() ==> #[trigger] jobs_view(jobs@)[m] == j0[m],
        decreases jobs@.len() - k,
    {
        if find_swept(dirs, max_age, jobs[k].loc.as_str()) {
            let ghost before = jobs_view(jobs@);
            assert(before[k as int] == j0[k as int]);
            let mut job = jobs[k].duplicate();
            job.status = Status::Cleaned;
            assert(job@ == clean_jobs(j0, dv, max_age)[k as int]);
            jobs.set(k, job);
            assert(jobs_view(jobs@) =~= before.update(k as int, clean_jobs(j0, dv, max_age)[k as int]));
        }
        k += 1;
    }
    assert(jobs_view(jobs@) =~= clean_jobs(j0, dv, max_age));
    remove
}

proof fn lemma_filter_keeps_all(s: Seq<DirModel>, pred: spec_fn(DirModel) -> bool)
    requires
        forall|i: int| 0 <= i < s.len() ==> pred(#[trigger] s[i]),
    ensures
        s.filter(pred) == s,
    decreases s.len(),
{
    reveal(Seq::filter);
    if s.len() > 0 {
        lemma_filter_keeps_all(s.drop_last(), pred);
        assert(s.drop_last().push(s.last()) =~= s);
    }
}

/// A second cleaner pass, over what the first one left and with the same
/// ages, changes nothing: no job changes and no directory is removed.
pub proof fn lemma_clean_pass_idempotent(jobs: Seq<JobModel>, dirs: Seq<DirModel>, max_age: u64)
    ensures
        clean_jobs(
            clean_jobs(jobs, dirs, max_age),
            remaining_dirs(jobs, dirs, max_age),
            max_age,
        ) == clean_jobs(jobs, dirs, max_age),
        remaining_dirs(
            clean_jobs(jobs, dirs, max_age),
            remaining_dirs(jobs, dirs, max_age),
            max_age,
        ) == remaining_dirs(jobs, dirs, max_age),
{
    let j1 = clean_jobs(jobs, dirs, max_age);
    let pred = |d: DirModel| !reaped(jobs, d, max_age);
    let d1 = dirs.filter(pred);
    broadcast use vstd::seq_lib::group_filter_ensures;

    assert forall|i: int| 0 <= i < d1.len() implies !reaped(j1, #[trigger] d1[i], max_age) by {
        assert(pred(d1[i]));
        if has_owner(j1, d1[i].path) {
            let k = choose|k: int| 0 <= k < j1.len() && #[trigger] j1[k].loc == d1[i].path;
            assert(jobs[k].loc == d1[i].path);
        }
    }
    lemma_filter_keeps_all(d1, |d: DirModel| !reaped(j1, d, max_age));
    assert forall|k: int| 0 <= k < j1.len() implies !swept(d1, max_age, #[trigger] j1[k].loc) by {
        if swept(d1, max_age, j1[k].loc) {
            let i = choose|i: int|
                0 <= i < d1.len() && expired(#[trigger] d1[i], max_age) && d1[i].path == j1[k].loc;
            assert(pred(d1[i]));
            assert(jobs[k].loc == d1[i].path);
        }
    }
    assert(clean_jobs(j1, d1, max_age) =~= j1);
}

/// After a cleaner pass with `max_age` zero, every job that owned a directory
/// that was found is `Cleaned`, and that directory is among those removed;
/// a directory without an owner is kept.
pub proof fn lemma_clean_pass_reaps_owned(jobs: Seq<JobModel>, dirs: Seq<DirModel>, i: int)
    requires
        0 <= i < dirs.len(),
        dirs[i].is_dir,
        dirs[i].age is Some,
    ensures
        has_owner(jobs, dirs[i].path) ==> reaped(jobs, dirs[i], 0),
        !has_owner(jobs, dirs[i].path) ==> !reaped(jobs, dirs[i], 0),
        forall|k: int|
            0 <= k < jobs.len() && jobs[k].loc == dirs[i].path ==> (#[trigger] clean_jobs(
                jobs,
                dirs,
                0,
            )[k]).status == Status::Cleaned,
{
    assert forall|k: int|
        0 <= k < jobs.len() && jobs[k].loc == dirs[i].path implies (#[trigger] clean_jobs(
        jobs,
        dirs,
        0,
    )[k]).status == Status::Cleaned by {
        assert(expired(dirs[i], 0));
        assert(swept(dirs, 0, jobs[k].loc));
    }
}

} // verus!

verus! {

/// The job transitions of the state machine: the sender moves a queued job
/// to `Processing` and then to `Submitted` or `Failed`; the getter moves a
/// submitted job to a terminal state or leaves it `Submitted`; the cleaner
/// may move any job to `Cleaned`.
pub open spec fn job_step(from: Status, to: Status) -> bool {
    ||| from == Status::Queued && to == Status::Processing
    ||| from == Status::Processing && (to == Status::Submitted || to == Status::Failed)
    ||| from == Status::Submitted && (to == Status::Completed || to == Status::Failed || to
        == Status::Invalid || to == Status::Cleaned || to == Status::Unknown || to
        == Status::Submitted)
    ||| to == Status::Cleaned
}

/// The payload transitions of the state machine: the intake moves a new
/// payload to `Prepared`; the runner moves a prepared one to `Completed`,
/// `Invalid` or `Failed`.
pub open spec fn payload_step(from: Status, to: Status) -> bool {
    ||| from == Status::Pending && to == Status::Prepared
    ||| from == Status::Prepared && (to == Status::Completed || to == Status::Invalid || to
        == Status::Failed)
}

/// The loops only make the transitions of the state machine: the sender's
/// two steps, the getter's step on a submitted job, the runner's step on a
/// prepared payload, and the cleaner's step.
pub proof fn lemma_loops_follow_state_machine(
    job: JobModel,
    upload: Result<u32, UploadError>,
    download: Result<(), DownloadError>,
    run: Result<(), ClientError>,
    dirs: Seq<DirModel>,
    max_age: u64,
)
    ensures
        job_step(Status::Queued, Status::Processing),
        job_step(Status::Processing, sender_next(job, upload).status),
        job_step(Status::Submitted, getter_next(Status::Submitted, download)),
        payload_step(Status::Prepared, runner_next(run)),
        payload_step(Status::Pending, Status::Prepared),
        clean_jobs(seq![job], dirs, max_age)[0].status == job.status || job_step(
            job.status,
            clean_jobs(seq![job], dirs, max_age)[0].status,
        ),
{
}

} // verus!

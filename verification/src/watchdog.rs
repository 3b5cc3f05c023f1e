//! The timeout watchdog: after a fixed delay it reads the workload's job
//! list once, finds the job whose display name carries the workload
//! identifier in bracket notation, and decides whether the whole run must be
//! cancelled because the reserved runner never attached.

use vstd::prelude::*;
use vstd::string::StringExecFns;

use crate::errors::CiError;
use crate::text;

verus! {

/// What the watchdog needs to know.
#[derive(Debug, Clone)]
pub struct TimeoutInput {
    /// How long to wait before the single check, in seconds.
    pub wait_time: u64,
    pub unique_id: String,
    pub github_repository: String,
    pub github_run_id: String,
    pub github_token: String,
}

/// One job as the CI provider reports it: its display name and its status.
/// Every other field of the provider's answer is ignored.
#[derive(Debug, Clone)]
pub struct JobSnapshot {
    pub name: String,
    pub status: String,
}

/// The watchdog's decision about a correlated job.
#[derive(Debug, Clone, Copy, PartialEq, Eq, Structural)]
pub enum WatchdogVerdict {
    /// The job is still queued: the reserved runner never attached, so the
    /// whole run is to be cancelled.
    CancelRun,
    /// The job moved past queueing: the runner attached, nothing to do.
    LeaveRunning,
}

/// The marker by which a job's display name is correlated with a workload:
/// the identifier in bracket notation.
pub open spec fn job_marker(id: Seq<char>) -> Seq<char> {
    "["@ + id + "]"@
}

/// Whether a job belongs to the workload `id`: its display name holds the
/// bracket marker as a contiguous run of characters.
pub open spec fn job_matches(j: JobSnapshot, id: Seq<char>) -> bool {
    text::contains_seq(j.name@, job_marker(id))
}

/// The status that means the runner never picked the job up.
pub open spec fn queued_status() -> Seq<char> {
    "queued"@
}

/// Builds the bracket marker `[id]` for a workload identifier.
fn build_marker(unique_id: &str) -> (r: String)
    ensures
        r@ == job_marker(unique_id@),
{
    let mut m = String::new();
    m.append("[");
    m.append(unique_id);
    m.append("]");
    proof {
        assert(m@ =~= job_marker(unique_id@));
    }
    m
}

/// Finds the first job correlated with the workload, if any.
pub fn find_workload_job(jobs: &Vec<JobSnapshot>, unique_id: &str) -> (r: Option<usize>)
    ensures
        r matches Some(i) ==> i < jobs@.len() && job_matches(jobs@[i as int], unique_id@) && (
        forall|j: int| 0 <= j < i ==> !job_matches(jobs@[j], unique_id@)),
        r is None ==> forall|j: int| 0 <= j < jobs@.len() ==> !job_matches(jobs@[j], unique_id@),
{
    let marker = build_marker(unique_id);
    let n = jobs.len();
    let mut i: usize = 0;
    while i < n
        invariant
            n == jobs@.len(),
            i <= n,
            marker@ == job_marker(unique_id@),
            forall|j: int| 0 <= j < i ==> !job_matches(jobs@[j], unique_id@),
        decreases n - i,
    {
        if text::contains_substr(jobs[i].name.as_str(), marker.as_str()) {
            return Some(i);
        }
        i = i + 1;
    }
    None
}

/// Reads the job list fetched from the CI provider and decides: cancel the
/// run when the correlated job is still queued, leave it alone when the job
/// moved on, and fail with `JobNotFound` when no job carries the marker —
/// the naming convention is the only linkage, so its absence is fatal.
///
/// The decision goes by the first job carrying the marker, and the list is
/// read exactly as handed over: nothing else influences the verdict.
pub fn judge_jobs(jobs: &Vec<JobSnapshot>, unique_id: &str) -> (r: Result<
    WatchdogVerdict,
    CiError,
>)
    ensures
        (r is Ok) == (exists|j: int|
            0 <= j < jobs@.len() && job_matches(#[trigger] jobs@[j], unique_id@)),
        r is Err ==> r == Err::<WatchdogVerdict, CiError>(CiError::JobNotFound),
        forall|i: int|
            (0 <= i < jobs@.len() && job_matches(#[trigger] jobs@[i], unique_id@) && (forall|j: int|
                0 <= j < i ==> !job_matches(#[trigger] jobs@[j], unique_id@))) ==> r == Ok::<
                WatchdogVerdict,
                CiError,
            >(
                if jobs@[i].status@ == queued_status() {
                    WatchdogVerdict::CancelRun
                } else {
                    WatchdogVerdict::LeaveRunning
                },
            ),
{
    match find_workload_job(jobs, unique_id) {
        None => Err(CiError::JobNotFound),
        Some(i) => {
            let queued = text::str_eq(jobs[i].status.as_str(), "queued");
            if queued {
                Ok(WatchdogVerdict::CancelRun)
            } else {
                Ok(WatchdogVerdict::LeaveRunning)
            }
        },
    }
}

/// The CI provider's address for the workload's run.
pub open spec fn spec_run_url(repo: Seq<char>, run_id: Seq<char>) -> Seq<char> {
    "https://api.github.com/repos/"@ + repo + "/actions/runs/"@ + run_id
}

/// Builds the address the run's job list is fetched from.
pub fn jobs_url(repo: &str, run_id: &str) -> (r: String)
    ensures
        r@ == spec_run_url(repo@, run_id@) + "/jobs"@,
{
    let mut url = base_run_url(repo, run_id);
    url.append("/jobs");
    url
}

/// Builds the address a cancellation of the whole run is posted to.
pub fn cancel_url(repo: &str, run_id: &str) -> (r: String)
    ensures
        r@ == spec_run_url(repo@, run_id@) + "/cancel"@,
{
    let mut url = base_run_url(repo, run_id);
    url.append("/cancel");
    url
}

/// Builds the run's address itself.
fn base_run_url(repo: &str, run_id: &str) -> (r: String)
    ensures
        r@ == spec_run_url(repo@, run_id@),
{
    let mut url = String::new();
    url.append("https://api.github.com/repos/");
    url.append(repo);
    url.append("/actions/runs/");
    url.append(run_id);
    proof {
        assert(url@ =~= spec_run_url(repo@, run_id@));
    }
    url
}

/// The watchdog's prepared single check: wait, fetch the job list from
/// `jobs_url`, judge it against `unique_id`, and on `CancelRun` post to
/// `cancel_url`.
#[derive(Debug, Clone)]
pub struct WatchdogPlan {
    pub wait_time: u64,
    pub unique_id: String,
    pub github_token: String,
    pub jobs_url: String,
    pub cancel_url: String,
}

/// What `plan_watchdog` promises: the plan carries the input's identifier,
/// credential and wait time, and the two addresses of the workload's run.
pub open spec fn watchdog_plan_post(input: TimeoutInput, p: WatchdogPlan) -> bool {
    &&& p.wait_time == input.wait_time
    &&& p.unique_id@ == input.unique_id@
    &&& p.github_token@ == input.github_token@
    &&& p.jobs_url@ == spec_run_url(input.github_repository@, input.github_run_id@) + "/jobs"@
    &&& p.cancel_url@ == spec_run_url(input.github_repository@, input.github_run_id@) + "/cancel"@
}

/// Prepares the watchdog's single check from its input.
pub fn plan_watchdog(input: TimeoutInput) -> (p: WatchdogPlan)
    ensures
        watchdog_plan_post(input, p),
{
    let jobs = jobs_url(input.github_repository.as_str(), input.github_run_id.as_str());
    let cancel = cancel_url(input.github_repository.as_str(), input.github_run_id.as_str());
    let TimeoutInput { wait_time, unique_id, github_repository: _, github_run_id: _, github_token } =
        input;
    WatchdogPlan { wait_time, unique_id, github_token, jobs_url: jobs, cancel_url: cancel }
}

} // verus!

use ci::errors::CiError;
use ci::watchdog::JobSnapshot;
use ci::watchdog::TimeoutInput;
use ci::watchdog::WatchdogVerdict;
use ci::watchdog::cancel_url;
use ci::watchdog::find_workload_job;
use ci::watchdog::jobs_url;
use ci::watchdog::judge_jobs;
use ci::watchdog::plan_watchdog;

fn job(name: &str, status: &str) -> JobSnapshot {
    JobSnapshot { name: name.to_string(), status: status.to_string() }
}

#[test]
fn queued_correlated_job_cancels_the_run() {
    let jobs = vec![job("build [abc-123]", "queued")];
    assert_eq!(judge_jobs(&jobs, "abc-123"), Ok(WatchdogVerdict::CancelRun));
}

#[test]
fn in_progress_correlated_job_is_left_alone() {
    let jobs = vec![job("build [abc-123]", "in_progress")];
    assert_eq!(judge_jobs(&jobs, "abc-123"), Ok(WatchdogVerdict::LeaveRunning));
}

#[test]
fn missing_correlated_job_is_fatal() {
    let jobs = vec![job("build [def-456]", "queued"), job("lint", "completed")];
    assert_eq!(judge_jobs(&jobs, "abc-123"), Err(CiError::JobNotFound));
}

#[test]
fn empty_job_list_is_fatal() {
    let jobs: Vec<JobSnapshot> = Vec::new();
    assert_eq!(judge_jobs(&jobs, "abc-123"), Err(CiError::JobNotFound));
}

#[test]
fn first_correlated_job_decides() {
    let jobs = vec![
        job("lint", "completed"),
        job("build [abc-123]", "completed"),
        job("retry build [abc-123]", "queued"),
    ];
    assert_eq!(find_workload_job(&jobs, "abc-123"), Some(1));
    assert_eq!(judge_jobs(&jobs, "abc-123"), Ok(WatchdogVerdict::LeaveRunning));
}

#[test]
fn marker_must_be_bracketed() {
    let jobs = vec![job("build abc-123", "queued")];
    assert_eq!(judge_jobs(&jobs, "abc-123"), Err(CiError::JobNotFound));
}

#[test]
fn run_urls_are_built_from_repo_and_run_id() {
    assert_eq!(
        jobs_url("servo/servo", "12345").as_str(),
        "https://api.github.com/repos/servo/servo/actions/runs/12345/jobs"
    );
    assert_eq!(
        cancel_url("servo/servo", "12345").as_str(),
        "https://api.github.com/repos/servo/servo/actions/runs/12345/cancel"
    );
}

#[test]
fn plan_carries_the_input_and_the_two_addresses() {
    let plan = plan_watchdog(TimeoutInput {
        wait_time: 55,
        unique_id: "abc-123".to_string(),
        github_repository: "servo/servo".to_string(),
        github_run_id: "99".to_string(),
        github_token: "test-token".to_string(),
    });
    assert_eq!(plan.wait_time, 55);
    assert_eq!(plan.unique_id.as_str(), "abc-123");
    assert_eq!(plan.github_token.as_str(), "test-token");
    assert_eq!(plan.jobs_url.as_str(), "https://api.github.com/repos/servo/servo/actions/runs/99/jobs");
    assert_eq!(
        plan.cancel_url.as_str(),
        "https://api.github.com/repos/servo/servo/actions/runs/99/cancel"
    );
}

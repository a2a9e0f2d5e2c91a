use saya_core::jobs::{poll_decision, AtlanticJob, AtlanticJobStatus, JobName, PollDecision};

fn job(name: JobName, status: AtlanticJobStatus) -> AtlanticJob {
    AtlanticJob { job_name: name, status }
}

#[test]
fn completed_job_is_ready() {
    let jobs = vec![
        job(JobName::TraceGeneration, AtlanticJobStatus::InProgress),
        job(JobName::ProofGeneration, AtlanticJobStatus::Completed),
    ];
    assert_eq!(poll_decision(&jobs, JobName::ProofGeneration), PollDecision::Ready);
}

#[test]
fn failed_job_is_fatal() {
    let jobs = vec![job(JobName::ProofGeneration, AtlanticJobStatus::Failed)];
    assert_eq!(poll_decision(&jobs, JobName::ProofGeneration), PollDecision::Fatal);
}

#[test]
fn in_progress_job_keeps_waiting() {
    let jobs = vec![job(JobName::ProofGeneration, AtlanticJobStatus::InProgress)];
    assert_eq!(poll_decision(&jobs, JobName::ProofGeneration), PollDecision::KeepWaiting);
}

#[test]
fn absent_record_keeps_waiting() {
    let jobs = vec![job(JobName::Other, AtlanticJobStatus::Completed)];
    assert_eq!(poll_decision(&jobs, JobName::ProofGeneration), PollDecision::KeepWaiting);
    assert_eq!(poll_decision(&Vec::new(), JobName::TraceGeneration), PollDecision::KeepWaiting);
}

#[test]
fn first_record_with_the_name_wins() {
    let jobs = vec![
        job(JobName::ProofGeneration, AtlanticJobStatus::InProgress),
        job(JobName::ProofGeneration, AtlanticJobStatus::Completed),
    ];
    assert_eq!(poll_decision(&jobs, JobName::ProofGeneration), PollDecision::KeepWaiting);
}

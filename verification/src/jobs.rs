use vstd::prelude::*;

verus! {

/// Seconds between polls of a remote job's status.
pub const PROOF_STATUS_POLL_INTERVAL_SECS: u64 = 10;

/// Status of one job in the remote prover's answer to a status query.
#[derive(Debug, Clone, Copy, PartialEq, Eq, Structural)]
pub enum AtlanticJobStatus {
    InProgress,
    Completed,
    Failed,
}

/// Which pipeline job a status record belongs to. The wire format labels
/// records with a job name; the client maps each label to this tag.
#[derive(Debug, Clone, Copy, PartialEq, Eq, Structural)]
pub enum JobName {
    ProofGeneration,
    TraceGeneration,
    Other,
}

/// One record of a remote query's job list.
#[derive(Debug, Clone, Copy, PartialEq, Eq, Structural)]
pub struct AtlanticJob {
    pub job_name: JobName,
    pub status: AtlanticJobStatus,
}

/// What a status poll means for the stage waiting on the job.
#[derive(Debug, Clone, Copy, PartialEq, Eq, Structural)]
pub enum PollDecision {
    /// The job completed; fetch its result.
    Ready,
    /// The job failed; the block cannot be proved without intervention.
    Fatal,
    /// Still in progress, or no record yet: poll again after the interval.
    KeepWaiting,
}

/// The first record with the given name, if any.
pub open spec fn find_job(jobs: Seq<AtlanticJob>, name: JobName) -> Option<AtlanticJob>
    decreases jobs.len(),
{
    if jobs.len() == 0 {
        None
    } else if jobs[0].job_name == name {
        Some(jobs[0])
    } else {
        find_job(jobs.drop_first(), name)
    }
}

/// The decision a poll outcome dictates: ready exactly when the named job
/// reports completion, fatal exactly when it reports failure, and waiting
/// otherwise, including when the record has not appeared yet.
pub open spec fn spec_poll_decision(jobs: Seq<AtlanticJob>, name: JobName) -> PollDecision {
    match find_job(jobs, name) {
        Option::None => PollDecision::KeepWaiting,
        Option::Some(job) => match job.status {
            AtlanticJobStatus::Completed => PollDecision::Ready,
            AtlanticJobStatus::Failed => PollDecision::Fatal,
            AtlanticJobStatus::InProgress => PollDecision::KeepWaiting,
        },
    }
}

/// The job lists a poll handed back, if the transport delivered one.
pub open spec fn jobs_view(jobs: Option<&Vec<AtlanticJob>>) -> Option<Seq<AtlanticJob>> {
    match jobs {
        Some(list) => Some(list@),
        None => None,
    }
}

/// The decision a poll outcome dictates when the transport may also have
/// failed: a failed poll is ignored and the stage keeps waiting.
pub open spec fn spec_status_decision(
    jobs: Option<Seq<AtlanticJob>>,
    name: JobName,
) -> Option<PollDecision> {
    match jobs {
        Some(list) => Some(spec_poll_decision(list, name)),
        None => None,
    }
}

/// Scan the remote prover's job list for the record carrying the given name
/// and read its status.
pub fn poll_decision(jobs: &Vec<AtlanticJob>, name: JobName) -> (d: PollDecision)
    ensures
        d == spec_poll_decision(jobs@, name),
{
    proof {
        assert(jobs@.skip(0) =~= jobs@);
    }
    let mut i: usize = 0;
    while i < jobs.len()
        invariant
            i <= jobs@.len(),
            find_job(jobs@, name) == find_job(jobs@.skip(i as int), name),
        decreases jobs@.len() - i,
    {
        let job = jobs[i];
        proof {
            assert(jobs@.skip(i as int)[0] == jobs@[i as int]);
        }
        if job.job_name == name {
            return match job.status {
                AtlanticJobStatus::Completed => PollDecision::Ready,
                AtlanticJobStatus::Failed => PollDecision::Fatal,
                AtlanticJobStatus::InProgress => PollDecision::KeepWaiting,
            };
        }
        i = i + 1;
        proof {
            assert(jobs@.skip(i - 1 as int).drop_first() =~= jobs@.skip(i as int));
        }
    }
    proof {
        assert(jobs@.skip(i as int) =~= Seq::<AtlanticJob>::empty());
    }
    PollDecision::KeepWaiting
}

} // verus!

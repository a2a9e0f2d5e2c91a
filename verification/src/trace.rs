use vstd::prelude::*;
use crate::jobs::{AtlanticJob, JobName, PollDecision, poll_decision, PROOF_STATUS_POLL_INTERVAL_SECS};
use crate::service::{count_occurrences, FinishHandle};
use crate::storage::{Query, StageStore};

verus! {

/// Phases of one recursion-trace generation against the remote prover.
#[derive(Debug)]
pub enum TracePhase {
    /// No trace generation under way.
    Idle,
    /// A trace job was requested; its query id has not come back yet.
    AwaitSubmit,
    /// Remote job known and recorded; polling its status.
    Polling { query_id: String },
    /// Remote job completed; downloading the artifact.
    Fetching { query_id: String },
    /// The artifact was handed back to the caller.
    Done,
    /// The submission failed, or the remote job reported failure.
    Failed,
}

/// What the trace generator's loop must do next.
#[derive(Debug)]
pub enum TraceAction {
    /// Submit a trace-generation job for the block.
    SubmitTrace,
    /// Sleep for the poll interval, then ask for the job list.
    Poll { query_id: String, delay_secs: u64 },
    /// Download the finished artifact.
    FetchTrace { query_id: String },
    /// Hand the artifact back to the caller.
    ReturnPie { pie: Vec<u8> },
    /// The submission failed; surface the error so the caller may retry.
    Error,
    /// The remote job reported failure; the block needs intervention.
    Fatal,
    /// Shutdown was requested; stop waiting on the job.
    Stop,
}

/// The trace generator's decision core: load-or-submit against the stage
/// store, then poll the remote job and download its artifact.
#[derive(Debug)]
pub struct AtlanticTraceGenerator {
    pub block_number: u32,
    pub phase: TracePhase,
}

// ----------------------------------------------------------------------
// Model: the generator's behaviour over plain values. The only checkpoint
// this component owns is the trace job's query id.
// ----------------------------------------------------------------------

pub enum TracePhaseModel {
    Idle,
    AwaitSubmit,
    Polling { query_id: Seq<char> },
    Fetching { query_id: Seq<char> },
    Done,
    Failed,
}

pub open spec fn trace_phase_model(p: TracePhase) -> TracePhaseModel {
    match p {
        TracePhase::Idle => TracePhaseModel::Idle,
        TracePhase::AwaitSubmit => TracePhaseModel::AwaitSubmit,
        TracePhase::Polling { query_id } => TracePhaseModel::Polling { query_id: query_id@ },
        TracePhase::Fetching { query_id } => TracePhaseModel::Fetching { query_id: query_id@ },
        TracePhase::Done => TracePhaseModel::Done,
        TracePhase::Failed => TracePhaseModel::Failed,
    }
}

pub enum TraceEventModel {
    Begin,
    SubmitOutcome { query_id: Option<Seq<char>> },
    JobStatus { shutdown: bool, decision: Option<PollDecision> },
    TraceFetched,
    Restart,
}

pub enum TraceActionModel {
    SubmitTraceA,
    PollA,
    FetchA,
    ReturnA,
    ErrorA,
    FatalA,
    StopA,
    IdleA,
}

pub open spec fn trace_action_model(a: TraceAction) -> TraceActionModel {
    match a {
        TraceAction::SubmitTrace => TraceActionModel::SubmitTraceA,
        TraceAction::Poll { .. } => TraceActionModel::PollA,
        TraceAction::FetchTrace { .. } => TraceActionModel::FetchA,
        TraceAction::ReturnPie { .. } => TraceActionModel::ReturnA,
        TraceAction::Error => TraceActionModel::ErrorA,
        TraceAction::Fatal => TraceActionModel::FatalA,
        TraceAction::Stop => TraceActionModel::StopA,
    }
}

/// One step of the generator: next phase, the block's recorded trace query
/// id, and what the runtime is asked to do. A job is submitted only when
/// no query id is recorded, and a fresh id is recorded in the same step
/// that learns it.
pub open spec fn trace_model_step(
    phase: TracePhaseModel,
    query_id: Option<Seq<char>>,
    ev: TraceEventModel,
) -> (TracePhaseModel, Option<Seq<char>>, TraceActionModel) {
    match ev {
        TraceEventModel::Restart => (TracePhaseModel::Idle, query_id, TraceActionModel::IdleA),
        TraceEventModel::Begin => {
            if phase is Polling || phase is Fetching || phase is AwaitSubmit {
                (phase, query_id, TraceActionModel::IdleA)
            } else {
                match query_id {
                    Some(q) => (
                        TracePhaseModel::Polling { query_id: q },
                        query_id,
                        TraceActionModel::PollA,
                    ),
                    None => (
                        TracePhaseModel::AwaitSubmit,
                        query_id,
                        TraceActionModel::SubmitTraceA,
                    ),
                }
            }
        },
        TraceEventModel::SubmitOutcome { query_id: outcome } => {
            if !(phase is AwaitSubmit) {
                (phase, query_id, TraceActionModel::IdleA)
            } else {
                match outcome {
                    Some(q) => (
                        TracePhaseModel::Polling { query_id: q },
                        Some(q),
                        TraceActionModel::PollA,
                    ),
                    None => (TracePhaseModel::Failed, query_id, TraceActionModel::ErrorA),
                }
            }
        },
        TraceEventModel::JobStatus { shutdown, decision } => {
            if !(phase is Polling) {
                (phase, query_id, TraceActionModel::IdleA)
            } else if shutdown {
                (phase, query_id, TraceActionModel::StopA)
            } else {
                match decision {
                    Some(PollDecision::Ready) => (
                        TracePhaseModel::Fetching { query_id: phase->Polling_query_id },
                        query_id,
                        TraceActionModel::FetchA,
                    ),
                    Some(PollDecision::Fatal) => (
                        TracePhaseModel::Failed,
                        query_id,
                        TraceActionModel::FatalA,
                    ),
                    _ => (phase, query_id, TraceActionModel::PollA),
                }
            }
        },
        TraceEventModel::TraceFetched => {
            if !(phase is Fetching) {
                (phase, query_id, TraceActionModel::IdleA)
            } else {
                (TracePhaseModel::Done, query_id, TraceActionModel::ReturnA)
            }
        },
    }
}

/// The trace query id the store records for a block.
pub open spec fn trace_query_id_of(store: StageStore, block_number: u32) -> Option<Seq<char>> {
    if store.query_id_map(Query::BridgeTrace).contains_key(block_number) {
        Some(store.query_id_map(Query::BridgeTrace)[block_number]@)
    } else {
        None
    }
}

impl AtlanticTraceGenerator {
    pub fn new() -> (r: AtlanticTraceGenerator)
        ensures
            r.phase is Idle,
    {
        AtlanticTraceGenerator { block_number: 0, phase: TracePhase::Idle }
    }

    /// Load-or-submit: resume the recorded job if the store has one, and
    /// only otherwise ask for a fresh submission.
    pub fn begin(&mut self, block_number: u32, store: &StageStore) -> (action: TraceAction)
        requires
            old(self).phase is Idle || old(self).phase is Done || old(self).phase is Failed,
        ensures
            final(self).block_number == block_number,
            ({
                let r = trace_model_step(
                    trace_phase_model(old(self).phase),
                    trace_query_id_of(*store, block_number),
                    TraceEventModel::Begin,
                );
                trace_phase_model(final(self).phase) == r.0 && trace_query_id_of(
                    *store,
                    block_number,
                ) == r.1 && trace_action_model(action) == r.2
            }),
            action matches TraceAction::Poll { query_id, delay_secs } ==> query_id@
                == store.query_id_map(Query::BridgeTrace)[block_number]@ && delay_secs
                == PROOF_STATUS_POLL_INTERVAL_SECS,
    {
        self.block_number = block_number;
        match store.get_query_id(block_number, Query::BridgeTrace) {
            Some(query_id) => {
                let q = query_id.clone();
                self.phase = TracePhase::Polling { query_id: q };
                TraceAction::Poll {
                    query_id: query_id.clone(),
                    delay_secs: PROOF_STATUS_POLL_INTERVAL_SECS,
                }
            },
            None => {
                self.phase = TracePhase::AwaitSubmit;
                TraceAction::SubmitTrace
            },
        }
    }

    /// Outcome of the submission: a fresh query id is recorded before any
    /// waiting; a failed submission surfaces as a retryable error.
    pub fn on_submit_outcome(&mut self, store: &mut StageStore, outcome: Option<String>) -> (action:
        TraceAction)
        requires
            old(self).phase is AwaitSubmit,
        ensures
            final(self).block_number == old(self).block_number,
            final(store).proof_map(crate::storage::Step::Snos) == old(store).proof_map(
                crate::storage::Step::Snos,
            ),
            final(store).proof_map(crate::storage::Step::Bridge) == old(store).proof_map(
                crate::storage::Step::Bridge,
            ),
            final(store).pie_map(crate::storage::Step::Snos) == old(store).pie_map(
                crate::storage::Step::Snos,
            ),
            final(store).pie_map(crate::storage::Step::Bridge) == old(store).pie_map(
                crate::storage::Step::Bridge,
            ),
            final(store).query_id_map(Query::BridgeProof) == old(store).query_id_map(
                Query::BridgeProof,
            ),
            forall|b: u32|
                b != old(self).block_number ==> trace_query_id_of(*final(store), b)
                    == trace_query_id_of(*old(store), b),
            ({
                let r = trace_model_step(
                    trace_phase_model(old(self).phase),
                    trace_query_id_of(*old(store), old(self).block_number),
                    TraceEventModel::SubmitOutcome {
                        query_id: match outcome {
                            Some(q) => Some(q@),
                            None => None,
                        },
                    },
                );
                trace_phase_model(final(self).phase) == r.0 && trace_query_id_of(
                    *final(store),
                    old(self).block_number,
                ) == r.1 && trace_action_model(action) == r.2
            }),
            action matches TraceAction::Poll { query_id: q, delay_secs } ==> (outcome
                matches Some(id) && q@ == id@ && delay_secs
                == PROOF_STATUS_POLL_INTERVAL_SECS),
    {
        match outcome {
            Some(query_id) => {
                store.add_query_id(self.block_number, query_id.clone(), Query::BridgeTrace);
                self.phase = TracePhase::Polling { query_id: query_id.clone() };
                TraceAction::Poll { query_id, delay_secs: PROOF_STATUS_POLL_INTERVAL_SECS }
            },
            None => {
                self.phase = TracePhase::Failed;
                TraceAction::Error
            },
        }
    }

    /// One poll of the remote job list; `None` stands for a transport
    /// error, which is ignored. The recorded job is the one polled and the
    /// one fetched: every action payload carries the polling phase's own
    /// query id.
    pub fn on_job_status(&mut self, jobs: Option<&Vec<AtlanticJob>>) -> (action: TraceAction)
        requires
            old(self).phase is Polling,
        ensures
            final(self).block_number == old(self).block_number,
            forall|q: Option<Seq<char>>|
                {
                    let r = #[trigger] trace_model_step(
                        trace_phase_model(old(self).phase),
                        q,
                        TraceEventModel::JobStatus {
                            shutdown: false,
                            decision: crate::jobs::spec_status_decision(
                                crate::jobs::jobs_view(jobs),
                                JobName::TraceGeneration,
                            ),
                        },
                    );
                    trace_phase_model(final(self).phase) == r.0 && q == r.1
                        && trace_action_model(action) == r.2
                },
            action matches TraceAction::Poll { query_id, delay_secs } ==> trace_phase_model(
                old(self).phase,
            ) == (TracePhaseModel::Polling { query_id: query_id@ }) && delay_secs
                == PROOF_STATUS_POLL_INTERVAL_SECS,
            action matches TraceAction::FetchTrace { query_id } ==> trace_phase_model(
                old(self).phase,
            ) == (TracePhaseModel::Polling { query_id: query_id@ }),
    {
        let query_id = match &self.phase {
            TracePhase::Polling { query_id } => query_id.clone(),
            _ => String::new(),
        };
        match jobs {
            None => TraceAction::Poll { query_id, delay_secs: PROOF_STATUS_POLL_INTERVAL_SECS },
            Some(list) => match poll_decision(list, JobName::TraceGeneration) {
                PollDecision::Ready => {
                    self.phase = TracePhase::Fetching { query_id: query_id.clone() };
                    TraceAction::FetchTrace { query_id }
                },
                PollDecision::Fatal => {
                    self.phase = TracePhase::Failed;
                    TraceAction::Fatal
                },
                PollDecision::KeepWaiting => TraceAction::Poll {
                    query_id,
                    delay_secs: PROOF_STATUS_POLL_INTERVAL_SECS,
                },
            },
        }
    }

    /// One poll of the remote job list with the shutdown signal probed
    /// between sleeps, as the bridge stage's own poll loop probes it; the
    /// signal wins over every poll outcome.
    pub fn on_job_status_shutdown(
        &mut self,
        fh: &FinishHandle,
        jobs: Option<&Vec<AtlanticJob>>,
    ) -> (action: TraceAction)
        requires
            old(self).phase is Polling,
        ensures
            final(self).block_number == old(self).block_number,
            forall|q: Option<Seq<char>>|
                {
                    let r = #[trigger] trace_model_step(
                        trace_phase_model(old(self).phase),
                        q,
                        TraceEventModel::JobStatus {
                            shutdown: fh.shutdown_requested,
                            decision: crate::jobs::spec_status_decision(
                                crate::jobs::jobs_view(jobs),
                                JobName::TraceGeneration,
                            ),
                        },
                    );
                    trace_phase_model(final(self).phase) == r.0 && q == r.1
                        && trace_action_model(action) == r.2
                },
            fh.shutdown_requested ==> action is Stop,
            action matches TraceAction::Poll { query_id, delay_secs } ==> trace_phase_model(
                old(self).phase,
            ) == (TracePhaseModel::Polling { query_id: query_id@ }) && delay_secs
                == PROOF_STATUS_POLL_INTERVAL_SECS,
            action matches TraceAction::FetchTrace { query_id } ==> trace_phase_model(
                old(self).phase,
            ) == (TracePhaseModel::Polling { query_id: query_id@ }),
    {
        if fh.is_shutdown_requested() {
            return TraceAction::Stop;
        }
        self.on_job_status(jobs)
    }

    /// The artifact came down; hand it back to the caller, who turns it
    /// into the execution-artifact form the next step expects.
    pub fn on_trace_fetched(&mut self, pie_bytes: Vec<u8>) -> (action: TraceAction)
        requires
            old(self).phase is Fetching,
        ensures
            final(self).block_number == old(self).block_number,
            trace_phase_model(final(self).phase) is Done,
            action matches TraceAction::ReturnPie { pie } ==> pie@ == pie_bytes@,
            trace_action_model(action) == TraceActionModel::ReturnA,
    {
        self.phase = TracePhase::Done;
        TraceAction::ReturnPie { pie: pie_bytes }
    }
}

// ----------------------------------------------------------------------
// Laws over runs of the model.
// ----------------------------------------------------------------------

/// A run of the generator: fold the step function over the events,
/// collecting the asked-for actions.
pub open spec fn trace_model_run(
    phase: TracePhaseModel,
    query_id: Option<Seq<char>>,
    events: Seq<TraceEventModel>,
) -> (TracePhaseModel, Option<Seq<char>>, Seq<TraceActionModel>)
    decreases events.len(),
{
    if events.len() == 0 {
        (phase, query_id, Seq::empty())
    } else {
        let first = trace_model_step(phase, query_id, events[0]);
        let rest = trace_model_run(first.0, first.1, events.drop_first());
        (rest.0, rest.1, seq![first.2] + rest.2)
    }
}

/// Restarts only at step boundaries that lost no submission: the process
/// never dies between asking the remote prover for a trace job and
/// learning the job's query id.
pub open spec fn trace_restarts_safe(
    phase: TracePhaseModel,
    query_id: Option<Seq<char>>,
    events: Seq<TraceEventModel>,
) -> bool
    decreases events.len(),
{
    events.len() == 0 || {
        let first = trace_model_step(phase, query_id, events[0]);
        &&& (events[0] is Restart ==> !(phase is AwaitSubmit))
        &&& trace_restarts_safe(first.0, first.1, events.drop_first())
    }
}

/// No submission ever fails in the run (a failed submission is reported
/// to the remote prover's side too, so nothing bounds what a retry after
/// one may cost).
pub open spec fn trace_submits_never_fail(events: Seq<TraceEventModel>) -> bool {
    forall|i: int|
        0 <= i < events.len() ==> !(#[trigger] events[i] matches TraceEventModel::SubmitOutcome {
            query_id: None,
        })
}

/// How many further submissions a state can still cause.
pub open spec fn trace_submit_allowance(
    phase: TracePhaseModel,
    query_id: Option<Seq<char>>,
) -> nat {
    if query_id is Some {
        0
    } else if phase is AwaitSubmit {
        0
    } else {
        1
    }
}

proof fn lemma_trace_submission_count(
    phase: TracePhaseModel,
    query_id: Option<Seq<char>>,
    events: Seq<TraceEventModel>,
)
    requires
        trace_restarts_safe(phase, query_id, events),
        trace_submits_never_fail(events),
    ensures
        count_occurrences(
            trace_model_run(phase, query_id, events).2,
            TraceActionModel::SubmitTraceA,
        ) <= trace_submit_allowance(phase, query_id),
    decreases events.len(),
{
    if events.len() > 0 {
        let first = trace_model_step(phase, query_id, events[0]);
        assert(trace_submits_never_fail(events.drop_first())) by {
            assert(forall|i: int|
                0 <= i < events.drop_first().len() ==> events.drop_first()[i] == events[i + 1]);
        }
        lemma_trace_submission_count(first.0, first.1, events.drop_first());
        crate::service::lemma_count_cons(
            first.2,
            trace_model_run(first.0, first.1, events.drop_first()).2,
            TraceActionModel::SubmitTraceA,
        );
    }
}

/// At most one remote trace job per block: however often the process
/// restarts, a run that begins with no recorded trace query id submits at
/// most once, and a run that begins with one recorded never submits —
/// provided no restart falls between a submission and the recording of
/// its query id, and no submission fails.
pub proof fn lemma_at_most_one_trace_submission(
    query_id: Option<Seq<char>>,
    events: Seq<TraceEventModel>,
)
    requires
        trace_restarts_safe(TracePhaseModel::Idle, query_id, events),
        trace_submits_never_fail(events),
    ensures
        count_occurrences(
            trace_model_run(TracePhaseModel::Idle, query_id, events).2,
            TraceActionModel::SubmitTraceA,
        ) <= 1,
        query_id is Some ==> count_occurrences(
            trace_model_run(TracePhaseModel::Idle, query_id, events).2,
            TraceActionModel::SubmitTraceA,
        ) == 0,
{
    lemma_trace_submission_count(TracePhaseModel::Idle, query_id, events);
}

} // verus!

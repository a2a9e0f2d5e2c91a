use vstd::prelude::*;
use crate::felt::{copy_bytes, copy_felts, felts_view, Felt};
use crate::jobs::{AtlanticJob, JobName, PollDecision, poll_decision, PROOF_STATUS_POLL_INTERVAL_SECS};
use crate::service::{count_occurrences, BuildError, ChannelId, FinishHandle};
use crate::storage::{Query, StageStore, Step};

verus! {

/// Number of concurrent workers sharing the stage's input channel.
pub const WORKER_COUNT: usize = 10;

/// Retry budget for recursion-trace generation; exhausting it is fatal.
pub const MAX_TRACE_ATTEMPTS: u32 = 3;

/// Seconds between trace-generation attempts.
pub const TRACE_RETRY_DELAY_SECS: u64 = 1;

/// An inner proof of one block, as received from the preceding stage.
#[derive(Debug)]
pub struct SnosProof<T> {
    pub block_number: u64,
    pub proof: T,
}

/// A block's recursive proof: the inner proof's public output together
/// with the layout-bridge proof that verifies it, in the serialized form
/// the store holds; the settlement boundary parses it for the on-chain
/// splitter.
#[derive(Debug)]
pub struct RecursiveProof {
    pub block_number: u64,
    pub snos_output: Vec<Felt>,
    pub layout_bridge_proof: Vec<u8>,
}

/// Phases of one block's progress through the layout-bridge stage.
#[derive(Debug)]
pub enum BridgePhase {
    /// Nothing consulted yet.
    Started,
    /// Generating the recursion trace; counts failed attempts so far.
    AwaitTrace { attempts: u32 },
    /// Trace artifact persisted; a proof-generation job was requested and
    /// its query id has not come back yet.
    AwaitProofSubmit,
    /// Remote job known and recorded; polling its status.
    Polling { query_id: String },
    /// Remote job completed; downloading the proof.
    Fetching { query_id: String },
    /// The block's proof was persisted and handed out.
    Done,
    /// The block cannot be proved without operator intervention.
    Failed,
}

/// What the worker loop must do next for its block.
#[derive(Debug)]
pub enum BridgeAction {
    /// Run the trace generator over this input payload.
    GenerateTrace { input: Vec<u8> },
    /// Sleep, then retry trace generation.
    RetryTrace { delay_secs: u64 },
    /// Submit a proof-generation job over this artifact.
    SubmitProof { pie: Vec<u8> },
    /// Sleep for the poll interval, then ask for the job list.
    Poll { query_id: String, delay_secs: u64 },
    /// Download the finished proof.
    FetchProof { query_id: String },
    /// Parse the proof text and send the result downstream, selecting
    /// against shutdown.
    Forward { block_number: u64, snos_output: Vec<Felt>, proof_bytes: Vec<u8> },
    /// The job failed remotely or ran out of retries; tear the stage down.
    Fatal,
    /// Shutdown was requested; stop work on this block.
    Stop,
}

/// One worker's state for one block.
#[derive(Debug)]
pub struct BridgeJob {
    pub block_number: u32,
    /// The raw inner proof text, as received.
    pub snos_proof: Vec<u8>,
    /// Public output of the inner proof, as the verifier encoding reads it.
    pub snos_output: Vec<Felt>,
    pub phase: BridgePhase,
}

// ----------------------------------------------------------------------
// The stage's model: phases, per-block checkpoints, events and actions as
// plain mathematical values. Every handler below is pinned to one step of
// this model, and the stage's laws are proved over runs of it.
// ----------------------------------------------------------------------

/// The stage's per-block footprint in the stage store.
pub struct BlockCheckpoints {
    pub pie: Option<Seq<u8>>,
    pub query_id: Option<Seq<char>>,
    pub proof: Option<Seq<u8>>,
}

/// The bridge checkpoints the store holds for one block.
pub open spec fn checkpoints_of(store: StageStore, block_number: u32) -> BlockCheckpoints {
    BlockCheckpoints {
        pie: if store.pie_map(Step::Bridge).contains_key(block_number) {
            Some(store.pie_map(Step::Bridge)[block_number]@)
        } else {
            None
        },
        query_id: if store.query_id_map(Query::BridgeProof).contains_key(block_number) {
            Some(store.query_id_map(Query::BridgeProof)[block_number]@)
        } else {
            None
        },
        proof: if store.proof_map(Step::Bridge).contains_key(block_number) {
            Some(store.proof_map(Step::Bridge)[block_number]@)
        } else {
            None
        },
    }
}

pub enum BridgePhaseModel {
    Started,
    AwaitTrace { attempts: u32 },
    AwaitProofSubmit,
    Polling { query_id: Seq<char> },
    Fetching { query_id: Seq<char> },
    Done,
    Failed,
}

pub open spec fn phase_model(p: BridgePhase) -> BridgePhaseModel {
    match p {
        BridgePhase::Started => BridgePhaseModel::Started,
        BridgePhase::AwaitTrace { attempts } => BridgePhaseModel::AwaitTrace { attempts },
        BridgePhase::AwaitProofSubmit => BridgePhaseModel::AwaitProofSubmit,
        BridgePhase::Polling { query_id } => BridgePhaseModel::Polling { query_id: query_id@ },
        BridgePhase::Fetching { query_id } => BridgePhaseModel::Fetching { query_id: query_id@ },
        BridgePhase::Done => BridgePhaseModel::Done,
        BridgePhase::Failed => BridgePhaseModel::Failed,
    }
}

/// What drives one step: the worker begins a block, an outcome of an
/// asked-for action arrives, or the process restarts and the phase is lost
/// while the store survives.
pub enum BridgeEventModel {
    Begin,
    TraceOutcome { pie: Option<Seq<u8>> },
    ProofSubmitted { query_id: Seq<char> },
    JobStatus { shutdown: bool, decision: Option<PollDecision> },
    ProofFetched { bytes: Seq<u8> },
    Restart,
}

pub enum BridgeActionModel {
    GenerateTraceA,
    RetryTraceA,
    SubmitProofA,
    PollA,
    FetchA,
    ForwardA,
    FatalA,
    StopA,
    /// An event that the current phase has no use for; nothing happens.
    IdleA,
}

pub open spec fn action_model(a: BridgeAction) -> BridgeActionModel {
    match a {
        BridgeAction::GenerateTrace { .. } => BridgeActionModel::GenerateTraceA,
        BridgeAction::RetryTrace { .. } => BridgeActionModel::RetryTraceA,
        BridgeAction::SubmitProof { .. } => BridgeActionModel::SubmitProofA,
        BridgeAction::Poll { .. } => BridgeActionModel::PollA,
        BridgeAction::FetchProof { .. } => BridgeActionModel::FetchA,
        BridgeAction::Forward { .. } => BridgeActionModel::ForwardA,
        BridgeAction::Fatal => BridgeActionModel::FatalA,
        BridgeAction::Stop => BridgeActionModel::StopA,
    }
}

/// One step of the stage for one block: what the next phase is, what the
/// store's per-block checkpoints become, and what the runtime is asked to
/// do. Checkpoints are written in the same step that learns the value, so
/// a restart at a step boundary never loses a paid-for result.
pub open spec fn bridge_model_step(
    phase: BridgePhaseModel,
    cp: BlockCheckpoints,
    ev: BridgeEventModel,
) -> (BridgePhaseModel, BlockCheckpoints, BridgeActionModel) {
    match ev {
        BridgeEventModel::Restart => (BridgePhaseModel::Started, cp, BridgeActionModel::IdleA),
        BridgeEventModel::Begin => {
            if !(phase is Started) {
                (phase, cp, BridgeActionModel::IdleA)
            } else if cp.proof is Some {
                (BridgePhaseModel::Done, cp, BridgeActionModel::ForwardA)
            } else if cp.query_id is Some {
                (
                    BridgePhaseModel::Polling { query_id: cp.query_id.unwrap() },
                    cp,
                    BridgeActionModel::PollA,
                )
            } else if cp.pie is Some {
                (BridgePhaseModel::AwaitProofSubmit, cp, BridgeActionModel::SubmitProofA)
            } else {
                (
                    BridgePhaseModel::AwaitTrace { attempts: 0 },
                    cp,
                    BridgeActionModel::GenerateTraceA,
                )
            }
        },
        BridgeEventModel::TraceOutcome { pie } => {
            if !(phase is AwaitTrace) {
                (phase, cp, BridgeActionModel::IdleA)
            } else {
                match pie {
                    Some(bytes) => (
                        BridgePhaseModel::AwaitProofSubmit,
                        BlockCheckpoints { pie: Some(bytes), ..cp },
                        BridgeActionModel::SubmitProofA,
                    ),
                    None => {
                        let attempts = phase->AwaitTrace_attempts;
                        if attempts + 1 >= MAX_TRACE_ATTEMPTS {
                            (BridgePhaseModel::Failed, cp, BridgeActionModel::FatalA)
                        } else {
                            (
                                BridgePhaseModel::AwaitTrace { attempts: (attempts + 1) as u32 },
                                cp,
                                BridgeActionModel::RetryTraceA,
                            )
                        }
                    },
                }
            }
        },
        BridgeEventModel::ProofSubmitted { query_id } => {
            if !(phase is AwaitProofSubmit) {
                (phase, cp, BridgeActionModel::IdleA)
            } else {
                (
                    BridgePhaseModel::Polling { query_id },
                    BlockCheckpoints { query_id: Some(query_id), ..cp },
                    BridgeActionModel::PollA,
                )
            }
        },
        BridgeEventModel::JobStatus { shutdown, decision } => {
            if !(phase is Polling) {
                (phase, cp, BridgeActionModel::IdleA)
            } else if shutdown {
                (phase, cp, BridgeActionModel::StopA)
            } else {
                match decision {
                    Some(PollDecision::Ready) => (
                        BridgePhaseModel::Fetching { query_id: phase->Polling_query_id },
                        cp,
                        BridgeActionModel::FetchA,
                    ),
                    Some(PollDecision::Fatal) => (
                        BridgePhaseModel::Failed,
                        cp,
                        BridgeActionModel::FatalA,
                    ),
                    _ => (phase, cp, BridgeActionModel::PollA),
                }
            }
        },
        BridgeEventModel::ProofFetched { bytes } => {
            if !(phase is Fetching) {
                (phase, cp, BridgeActionModel::IdleA)
            } else {
                (
                    BridgePhaseModel::Done,
                    BlockCheckpoints { proof: Some(bytes), ..cp },
                    BridgeActionModel::ForwardA,
                )
            }
        },
    }
}

// ----------------------------------------------------------------------
// The executable machine, each handler pinned to one model step.
// ----------------------------------------------------------------------

/// The stage's records for blocks other than `block_number`, and every
/// record of other stages, are untouched.
pub open spec fn bridge_frame(old_store: StageStore, new_store: StageStore, block_number: u32) -> bool {
    &&& new_store.proof_map(Step::Snos) == old_store.proof_map(Step::Snos)
    &&& new_store.pie_map(Step::Snos) == old_store.pie_map(Step::Snos)
    &&& new_store.query_id_map(Query::BridgeTrace) == old_store.query_id_map(Query::BridgeTrace)
    &&& forall|b: u32|
        b != block_number ==> checkpoints_of(new_store, b) == checkpoints_of(old_store, b)
}

pub open spec fn same_job_identity(a: BridgeJob, b: BridgeJob) -> bool {
    &&& a.block_number == b.block_number
    &&& a.snos_proof == b.snos_proof
    &&& a.snos_output == b.snos_output
}

/// The JSON document handed to the trace generator: the inner proof text
/// embedded as the single `proof` field of an object.
pub open spec fn input_prefix() -> Seq<u8> {
    seq![123u8, 10u8, 9u8, 34u8, 112u8, 114u8, 111u8, 111u8, 102u8, 34u8, 58u8, 32u8]
}

pub open spec fn input_suffix() -> Seq<u8> {
    seq![10u8, 125u8]
}

pub open spec fn wrapped_proof_input(proof: Seq<u8>) -> Seq<u8> {
    input_prefix() + proof + input_suffix()
}

/// Frame the inner proof text for the trace generator.
pub fn wrap_proof_input(proof: &Vec<u8>) -> (r: Vec<u8>)
    ensures
        r@ == wrapped_proof_input(proof@),
{
    let mut r: Vec<u8> = Vec::new();
    r.push(123u8);
    r.push(10u8);
    r.push(9u8);
    r.push(34u8);
    r.push(112u8);
    r.push(114u8);
    r.push(111u8);
    r.push(111u8);
    r.push(102u8);
    r.push(34u8);
    r.push(58u8);
    r.push(32u8);
    proof {
        assert(r@ =~= input_prefix());
    }
    let mut i: usize = 0;
    while i < proof.len()
        invariant
            i <= proof@.len(),
            r@ == input_prefix() + proof@.take(i as int),
        decreases proof@.len() - i,
    {
        r.push(proof[i]);
        proof {
            assert(r@ =~= input_prefix() + proof@.take(i + 1 as int));
        }
        i = i + 1;
    }
    proof {
        assert(r@ =~= input_prefix() + proof@);
    }
    r.push(10u8);
    r.push(125u8);
    proof {
        assert(r@ =~= wrapped_proof_input(proof@));
    }
    r
}

impl BridgeJob {
    pub fn new(block_number: u32, snos_proof: Vec<u8>, snos_output: Vec<Felt>) -> (r: BridgeJob)
        ensures
            r.block_number == block_number,
            r.snos_proof == snos_proof,
            r.snos_output == snos_output,
            r.phase is Started,
    {
        BridgeJob { block_number, snos_proof, snos_output, phase: BridgePhase::Started }
    }

    /// Consult the three checkpoints in order: a finished proof is
    /// forwarded at once, a recorded job is resumed, a persisted trace
    /// artifact goes straight to proof submission, and only a block with
    /// none of them pays for trace generation. A job is requested only
    /// when no query id is recorded for the block.
    pub fn start(&mut self, store: &StageStore) -> (action: BridgeAction)
        requires
            old(self).phase is Started,
        ensures
            same_job_identity(*final(self), *old(self)),
            ({
                let r = bridge_model_step(
                    phase_model(old(self).phase),
                    checkpoints_of(*store, old(self).block_number),
                    BridgeEventModel::Begin,
                );
                phase_model(final(self).phase) == r.0 && checkpoints_of(
                    *store,
                    old(self).block_number,
                ) == r.1 && action_model(action) == r.2
            }),
            action matches BridgeAction::Forward { block_number, snos_output, proof_bytes } ==> {
                &&& block_number == old(self).block_number as u64
                &&& felts_view(snos_output@) == felts_view(old(self).snos_output@)
                &&& proof_bytes@ == store.proof_map(Step::Bridge)[old(self).block_number]@
            },
            action matches BridgeAction::Poll { query_id, delay_secs } ==> query_id@
                == store.query_id_map(Query::BridgeProof)[old(self).block_number]@ && delay_secs
                == PROOF_STATUS_POLL_INTERVAL_SECS,
            action matches BridgeAction::SubmitProof { pie } ==> pie@ == store.pie_map(
                Step::Bridge,
            )[old(self).block_number]@,
            action matches BridgeAction::GenerateTrace { input } ==> input@
                == wrapped_proof_input(old(self).snos_proof@),
    {
        let block_number = self.block_number;
        match store.get_proof(block_number, Step::Bridge) {
            Some(proof_bytes) => {
                self.phase = BridgePhase::Done;
                BridgeAction::Forward {
                    block_number: block_number as u64,
                    snos_output: copy_felts(&self.snos_output),
                    proof_bytes: copy_bytes(proof_bytes),
                }
            },
            None => match store.get_query_id(block_number, Query::BridgeProof) {
                Some(query_id) => {
                    let q = query_id.clone();
                    self.phase = BridgePhase::Polling { query_id: q };
                    BridgeAction::Poll {
                        query_id: query_id.clone(),
                        delay_secs: PROOF_STATUS_POLL_INTERVAL_SECS,
                    }
                },
                None => match store.get_pie(block_number, Step::Bridge) {
                    Some(pie) => {
                        self.phase = BridgePhase::AwaitProofSubmit;
                        BridgeAction::SubmitProof { pie: copy_bytes(pie) }
                    },
                    None => {
                        self.phase = BridgePhase::AwaitTrace { attempts: 0 };
                        BridgeAction::GenerateTrace { input: wrap_proof_input(&self.snos_proof) }
                    },
                },
            },
        }
    }

    /// Outcome of one trace-generation attempt. Success persists the
    /// artifact and moves on to proof submission; failure retries after a
    /// fixed delay until the attempt budget is spent, which is fatal.
    pub fn on_trace_outcome(&mut self, store: &mut StageStore, outcome: Option<Vec<u8>>) -> (action:
        BridgeAction)
        requires
            old(self).phase matches BridgePhase::AwaitTrace { attempts } && attempts
                < MAX_TRACE_ATTEMPTS,
        ensures
            same_job_identity(*final(self), *old(self)),
            bridge_frame(*old(store), *final(store), old(self).block_number),
            ({
                let r = bridge_model_step(
                    phase_model(old(self).phase),
                    checkpoints_of(*old(store), old(self).block_number),
                    BridgeEventModel::TraceOutcome {
                        pie: match outcome {
                            Some(bytes) => Some(bytes@),
                            None => None,
                        },
                    },
                );
                phase_model(final(self).phase) == r.0 && checkpoints_of(
                    *final(store),
                    old(self).block_number,
                ) == r.1 && action_model(action) == r.2
            }),
            action matches BridgeAction::SubmitProof { pie } ==> outcome matches Some(bytes)
                && pie@ == bytes@,
            action matches BridgeAction::RetryTrace { delay_secs } ==> delay_secs
                == TRACE_RETRY_DELAY_SECS,
    {
        match outcome {
            Some(pie) => {
                store.add_pie(self.block_number, copy_bytes(&pie), Step::Bridge);
                self.phase = BridgePhase::AwaitProofSubmit;
                BridgeAction::SubmitProof { pie }
            },
            None => {
                let attempts = match &self.phase {
                    BridgePhase::AwaitTrace { attempts } => *attempts,
                    _ => 0,
                };
                if attempts + 1 >= MAX_TRACE_ATTEMPTS {
                    self.phase = BridgePhase::Failed;
                    BridgeAction::Fatal
                } else {
                    self.phase = BridgePhase::AwaitTrace { attempts: attempts + 1 };
                    BridgeAction::RetryTrace { delay_secs: TRACE_RETRY_DELAY_SECS }
                }
            },
        }
    }

    /// The remote prover accepted the proof job: record the query id
    /// before any waiting, so a crash from here on resumes by polling the
    /// same job instead of paying for a new one.
    pub fn on_proof_submitted(&mut self, store: &mut StageStore, query_id: String) -> (action:
        BridgeAction)
        requires
            old(self).phase is AwaitProofSubmit,
        ensures
            same_job_identity(*final(self), *old(self)),
            bridge_frame(*old(store), *final(store), old(self).block_number),
            ({
                let r = bridge_model_step(
                    phase_model(old(self).phase),
                    checkpoints_of(*old(store), old(self).block_number),
                    BridgeEventModel::ProofSubmitted { query_id: query_id@ },
                );
                phase_model(final(self).phase) == r.0 && checkpoints_of(
                    *final(store),
                    old(self).block_number,
                ) == r.1 && action_model(action) == r.2
            }),
            action matches BridgeAction::Poll { query_id: q, delay_secs } ==> q@ == query_id@
                && delay_secs == PROOF_STATUS_POLL_INTERVAL_SECS,
    {
        store.add_query_id(self.block_number, query_id.clone(), Query::BridgeProof);
        self.phase = BridgePhase::Polling { query_id: query_id.clone() };
        BridgeAction::Poll { query_id, delay_secs: PROOF_STATUS_POLL_INTERVAL_SECS }
    }

    /// One poll of the remote job list; `None` stands for a transport
    /// error, which is ignored. The shutdown signal is probed between
    /// sleeps and wins over everything else.
    pub fn on_job_status(&mut self, fh: &FinishHandle, jobs: Option<&Vec<AtlanticJob>>) -> (action:
        BridgeAction)
        requires
            old(self).phase is Polling,
        ensures
            same_job_identity(*final(self), *old(self)),
            forall|cp: BlockCheckpoints|
                {
                    let r = #[trigger] bridge_model_step(
                        phase_model(old(self).phase),
                        cp,
                        BridgeEventModel::JobStatus {
                            shutdown: fh.shutdown_requested,
                            decision: crate::jobs::spec_status_decision(
                                crate::jobs::jobs_view(jobs),
                                JobName::ProofGeneration,
                            ),
                        },
                    );
                    phase_model(final(self).phase) == r.0 && cp == r.1 && action_model(action)
                        == r.2
                },
            action matches BridgeAction::Poll { query_id, delay_secs } ==> phase_model(
                old(self).phase,
            ) == (BridgePhaseModel::Polling { query_id: query_id@ }) && delay_secs
                == PROOF_STATUS_POLL_INTERVAL_SECS,
            action matches BridgeAction::FetchProof { query_id } ==> phase_model(old(self).phase)
                == (BridgePhaseModel::Polling { query_id: query_id@ }),
    {
        if fh.is_shutdown_requested() {
            return BridgeAction::Stop;
        }
        let query_id = match &self.phase {
            BridgePhase::Polling { query_id } => query_id.clone(),
            _ => String::new(),
        };
        match jobs {
            None => BridgeAction::Poll { query_id, delay_secs: PROOF_STATUS_POLL_INTERVAL_SECS },
            Some(list) => match poll_decision(list, JobName::ProofGeneration) {
                PollDecision::Ready => {
                    self.phase = BridgePhase::Fetching { query_id: query_id.clone() };
                    BridgeAction::FetchProof { query_id }
                },
                PollDecision::Fatal => {
                    self.phase = BridgePhase::Failed;
                    BridgeAction::Fatal
                },
                PollDecision::KeepWaiting => BridgeAction::Poll {
                    query_id,
                    delay_secs: PROOF_STATUS_POLL_INTERVAL_SECS,
                },
            },
        }
    }

    /// The proof came down: persist it for every later resume, then hand
    /// it out for parsing and forwarding.
    pub fn on_proof_fetched(&mut self, store: &mut StageStore, proof_bytes: Vec<u8>) -> (action:
        BridgeAction)
        requires
            old(self).phase is Fetching,
        ensures
            same_job_identity(*final(self), *old(self)),
            bridge_frame(*old(store), *final(store), old(self).block_number),
            ({
                let r = bridge_model_step(
                    phase_model(old(self).phase),
                    checkpoints_of(*old(store), old(self).block_number),
                    BridgeEventModel::ProofFetched { bytes: proof_bytes@ },
                );
                phase_model(final(self).phase) == r.0 && checkpoints_of(
                    *final(store),
                    old(self).block_number,
                ) == r.1 && action_model(action) == r.2
            }),
            action matches BridgeAction::Forward { block_number, snos_output, proof_bytes: pb } ==> {
                &&& block_number == old(self).block_number as u64
                &&& felts_view(snos_output@) == felts_view(old(self).snos_output@)
                &&& pb@ == proof_bytes@
            },
    {
        store.add_proof(self.block_number, copy_bytes(&proof_bytes), Step::Bridge);
        self.phase = BridgePhase::Done;
        BridgeAction::Forward {
            block_number: self.block_number as u64,
            snos_output: copy_felts(&self.snos_output),
            proof_bytes,
        }
    }
}

/// Build the stage's output from a forwarded proof.
pub fn assemble_recursive_proof(
    block_number: u64,
    snos_output: Vec<Felt>,
    proof_bytes: Vec<u8>,
) -> (r: RecursiveProof)
    ensures
        r.block_number == block_number,
        r.snos_output == snos_output,
        r.layout_bridge_proof == proof_bytes,
{
    RecursiveProof { block_number, snos_output, layout_bridge_proof: proof_bytes }
}

// ----------------------------------------------------------------------
// Laws over runs of the model.
// ----------------------------------------------------------------------

/// A run of the stage for one block: fold the step function over the
/// events, collecting the asked-for actions. A `Restart` event models a
/// crash: the phase is lost, the store survives.
pub open spec fn bridge_model_run(
    phase: BridgePhaseModel,
    cp: BlockCheckpoints,
    events: Seq<BridgeEventModel>,
) -> (BridgePhaseModel, BlockCheckpoints, Seq<BridgeActionModel>)
    decreases events.len(),
{
    if events.len() == 0 {
        (phase, cp, Seq::empty())
    } else {
        let first = bridge_model_step(phase, cp, events[0]);
        let rest = bridge_model_run(first.0, first.1, events.drop_first());
        (rest.0, rest.1, seq![first.2] + rest.2)
    }
}

/// Restarts only at step boundaries that lost no submission: the process
/// never dies between asking the remote prover for a proof job and
/// learning the job's query id. (A crash inside that window would submit
/// the block a second time after the restart.)
pub open spec fn bridge_restarts_safe(
    phase: BridgePhaseModel,
    cp: BlockCheckpoints,
    events: Seq<BridgeEventModel>,
) -> bool
    decreases events.len(),
{
    events.len() == 0 || {
        let first = bridge_model_step(phase, cp, events[0]);
        &&& (events[0] is Restart ==> !(phase is AwaitProofSubmit))
        &&& bridge_restarts_safe(first.0, first.1, events.drop_first())
    }
}

/// How many further proof-job submissions a state can still cause.
pub open spec fn bridge_submit_allowance(phase: BridgePhaseModel, cp: BlockCheckpoints) -> nat {
    if cp.query_id is Some {
        0
    } else if phase is AwaitProofSubmit {
        0
    } else {
        1
    }
}

/// While a trace is being generated, no proof job is recorded yet.
pub open spec fn bridge_trace_inv(phase: BridgePhaseModel, cp: BlockCheckpoints) -> bool {
    phase is AwaitTrace ==> cp.query_id is None
}

proof fn lemma_bridge_submission_count(
    phase: BridgePhaseModel,
    cp: BlockCheckpoints,
    events: Seq<BridgeEventModel>,
)
    requires
        bridge_restarts_safe(phase, cp, events),
        bridge_trace_inv(phase, cp),
    ensures
        count_occurrences(bridge_model_run(phase, cp, events).2, BridgeActionModel::SubmitProofA)
            <= bridge_submit_allowance(phase, cp),
    decreases events.len(),
{
    if events.len() > 0 {
        let first = bridge_model_step(phase, cp, events[0]);
        lemma_bridge_submission_count(first.0, first.1, events.drop_first());
        crate::service::lemma_count_cons(
            first.2,
            bridge_model_run(first.0, first.1, events.drop_first()).2,
            BridgeActionModel::SubmitProofA,
        );
    }
}

/// At most one remote proof job per block, across any execution with
/// arbitrary restarts: a run that begins with no recorded query id
/// submits at most once, and a run that begins with one recorded never
/// submits — provided no restart falls between a submission and the
/// recording of its query id, and no store record is deleted externally.
pub proof fn lemma_at_most_one_proof_submission(
    cp: BlockCheckpoints,
    events: Seq<BridgeEventModel>,
)
    requires
        bridge_restarts_safe(BridgePhaseModel::Started, cp, events),
    ensures
        count_occurrences(
            bridge_model_run(BridgePhaseModel::Started, cp, events).2,
            BridgeActionModel::SubmitProofA,
        ) <= 1,
        cp.query_id is Some ==> count_occurrences(
            bridge_model_run(BridgePhaseModel::Started, cp, events).2,
            BridgeActionModel::SubmitProofA,
        ) == 0,
{
    lemma_bridge_submission_count(BridgePhaseModel::Started, cp, events);
}

proof fn lemma_bridge_forward_invariant(
    phase: BridgePhaseModel,
    cp: BlockCheckpoints,
    events: Seq<BridgeEventModel>,
)
    ensures
        bridge_model_run(phase, cp, events).0 is Done ==> (phase is Done || count_occurrences(
            bridge_model_run(phase, cp, events).2,
            BridgeActionModel::ForwardA,
        ) >= 1),
    decreases events.len(),
{
    if events.len() > 0 {
        let first = bridge_model_step(phase, cp, events[0]);
        lemma_bridge_forward_invariant(first.0, first.1, events.drop_first());
        crate::service::lemma_count_cons(
            first.2,
            bridge_model_run(first.0, first.1, events.drop_first()).2,
            BridgeActionModel::ForwardA,
        );
    }
}

/// Idempotent resume: whatever crash points interrupt the work on a
/// block, every run that completes hands the block's proof out at least
/// once; together with the step contracts — every forwarded item of a job
/// carries the job's own block number — any two completed runs yield the
/// same singleton set of settled block numbers for the block.
pub proof fn lemma_idempotent_resume(
    cp: BlockCheckpoints,
    first_run: Seq<BridgeEventModel>,
    second_run: Seq<BridgeEventModel>,
)
    requires
        bridge_model_run(BridgePhaseModel::Started, cp, first_run).0 is Done,
        bridge_model_run(BridgePhaseModel::Started, cp, second_run).0 is Done,
    ensures
        count_occurrences(
            bridge_model_run(BridgePhaseModel::Started, cp, first_run).2,
            BridgeActionModel::ForwardA,
        ) >= 1,
        count_occurrences(
            bridge_model_run(BridgePhaseModel::Started, cp, second_run).2,
            BridgeActionModel::ForwardA,
        ) >= 1,
{
    lemma_bridge_forward_invariant(BridgePhaseModel::Started, cp, first_run);
    lemma_bridge_forward_invariant(BridgePhaseModel::Started, cp, second_run);
}

proof fn lemma_cached_proof_run_is_inert(
    phase: BridgePhaseModel,
    cp: BlockCheckpoints,
    events: Seq<BridgeEventModel>,
)
    requires
        phase is Started || phase is Done,
        cp.proof is Some,
    ensures
        bridge_model_run(phase, cp, events).1 == cp,
        count_occurrences(
            bridge_model_run(phase, cp, events).2,
            BridgeActionModel::SubmitProofA,
        ) == 0,
        count_occurrences(
            bridge_model_run(phase, cp, events).2,
            BridgeActionModel::GenerateTraceA,
        ) == 0,
    decreases events.len(),
{
    if events.len() > 0 {
        let first = bridge_model_step(phase, cp, events[0]);
        lemma_cached_proof_run_is_inert(first.0, first.1, events.drop_first());
        crate::service::lemma_count_cons(
            first.2,
            bridge_model_run(first.0, first.1, events.drop_first()).2,
            BridgeActionModel::SubmitProofA,
        );
        crate::service::lemma_count_cons(
            first.2,
            bridge_model_run(first.0, first.1, events.drop_first()).2,
            BridgeActionModel::GenerateTraceA,
        );
    }
}

/// Once a block's proof is persisted, resuming the block costs nothing:
/// however often the process restarts, no run from then on generates a
/// trace, submits a remote job, or writes a checkpoint — the proof is only
/// ever forwarded from the store.
pub proof fn lemma_cached_proof_never_resubmits(
    cp: BlockCheckpoints,
    events: Seq<BridgeEventModel>,
)
    requires
        cp.proof is Some,
    ensures
        bridge_model_run(BridgePhaseModel::Started, cp, events).1 == cp,
        count_occurrences(
            bridge_model_run(BridgePhaseModel::Started, cp, events).2,
            BridgeActionModel::SubmitProofA,
        ) == 0,
        count_occurrences(
            bridge_model_run(BridgePhaseModel::Started, cp, events).2,
            BridgeActionModel::GenerateTraceA,
        ) == 0,
{
    lemma_cached_proof_run_is_inert(BridgePhaseModel::Started, cp, events);
}

pub open spec fn no_restarts(events: Seq<BridgeEventModel>) -> bool {
    forall|i: int| 0 <= i < events.len() ==> !(#[trigger] events[i] is Restart)
}

/// No side effect after the block is finished: once a job is done or
/// failed, further events change no checkpoint and ask for no action, so
/// a drained stage that reported `finish` neither sends nor persists.
pub proof fn lemma_no_action_after_done(
    phase: BridgePhaseModel,
    cp: BlockCheckpoints,
    events: Seq<BridgeEventModel>,
)
    requires
        phase is Done || phase is Failed,
        no_restarts(events),
    ensures
        bridge_model_run(phase, cp, events).1 == cp,
        count_occurrences(bridge_model_run(phase, cp, events).2, BridgeActionModel::IdleA)
            == events.len(),
    decreases events.len(),
{
    if events.len() > 0 {
        let first = bridge_model_step(phase, cp, events[0]);
        assert(no_restarts(events.drop_first())) by {
            assert(forall|i: int|
                0 <= i < events.drop_first().len() ==> events.drop_first()[i] == events[i + 1]);
        }
        lemma_no_action_after_done(first.0, first.1, events.drop_first());
        crate::service::lemma_count_cons(
            first.2,
            bridge_model_run(first.0, first.1, events.drop_first()).2,
            BridgeActionModel::IdleA,
        );
    }
}

/// The layout-bridge prover stage: a pool of `WORKER_COUNT` workers share
/// the statement channel, each driving one block at a time through
/// `BridgeJob`.
#[derive(Debug)]
pub struct AtlanticLayoutBridgeProver {
    pub api_key: String,
    /// The layout-bridge program the trace generator runs (opaque bytes).
    pub layout_bridge: Vec<u8>,
    pub statement_channel: ChannelId,
    pub proof_channel: ChannelId,
    pub finish_handle: FinishHandle,
}

#[derive(Debug)]
pub struct AtlanticLayoutBridgeProverBuilder {
    pub api_key: String,
    pub layout_bridge: Vec<u8>,
    pub statement_channel: Option<ChannelId>,
    pub proof_channel: Option<ChannelId>,
}

impl AtlanticLayoutBridgeProverBuilder {
    pub fn new(api_key: String, layout_bridge: Vec<u8>) -> (r: AtlanticLayoutBridgeProverBuilder)
        ensures
            r.api_key == api_key,
            r.layout_bridge == layout_bridge,
            r.statement_channel is None,
            r.proof_channel is None,
    {
        AtlanticLayoutBridgeProverBuilder {
            api_key,
            layout_bridge,
            statement_channel: None,
            proof_channel: None,
        }
    }

    pub fn statement_channel(self, statement_channel: ChannelId) -> (r:
        AtlanticLayoutBridgeProverBuilder)
        ensures
            r == (AtlanticLayoutBridgeProverBuilder {
                statement_channel: Some(statement_channel),
                ..self
            }),
    {
        AtlanticLayoutBridgeProverBuilder { statement_channel: Some(statement_channel), ..self }
    }

    pub fn proof_channel(self, proof_channel: ChannelId) -> (r: AtlanticLayoutBridgeProverBuilder)
        ensures
            r == (AtlanticLayoutBridgeProverBuilder { proof_channel: Some(proof_channel), ..self }),
    {
        AtlanticLayoutBridgeProverBuilder { proof_channel: Some(proof_channel), ..self }
    }

    pub fn build(self) -> (r: Result<AtlanticLayoutBridgeProver, BuildError>)
        ensures
            r is Ok <==> (self.statement_channel is Some && self.proof_channel is Some),
            r matches Ok(p) ==> {
                &&& p.api_key == self.api_key
                &&& p.layout_bridge == self.layout_bridge
                &&& p.statement_channel == self.statement_channel.unwrap()
                &&& p.proof_channel == self.proof_channel.unwrap()
                &&& !p.finish_handle.shutdown_requested
                &&& !p.finish_handle.finished
            },
    {
        match (self.statement_channel, self.proof_channel) {
            (Some(statement_channel), Some(proof_channel)) => Ok(AtlanticLayoutBridgeProver {
                api_key: self.api_key,
                layout_bridge: self.layout_bridge,
                statement_channel,
                proof_channel,
                finish_handle: FinishHandle::new(),
            }),
            _ => Err(BuildError::ConfigurationIncomplete),
        }
    }
}

} // verus!

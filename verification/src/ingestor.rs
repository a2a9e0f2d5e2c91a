use vstd::prelude::*;
use crate::service::{ChannelId, FinishHandle};

verus! {

/// Seconds to wait before retrying the inner proving routine, both when the
/// upstream node has not produced the block yet and on any other failure.
pub const PROVE_BLOCK_FAILURE_BACKOFF_SECS: u64 = 5;

/// A freshly proved block, as handed to the next stage.
#[derive(Debug)]
pub struct NewBlock {
    pub number: u64,
    /// Opaque serialized record of the block's execution.
    pub pie: Vec<u8>,
    pub n_txs: u64,
}

/// Outcome of one invocation of the external inner proving routine,
/// together with the block's transaction count fetched alongside it.
#[derive(Debug)]
pub enum ProveOutcome {
    Proved { pie: Vec<u8>, n_txs: u64 },
    /// The upstream node has not produced the block yet; backed off silently.
    BlockNotFound,
    /// Any other failure; logged and then backed off identically.
    Error,
}

/// What the polling loop must do next.
#[derive(Debug)]
pub enum IngestorAction {
    /// Send this block downstream, selecting against shutdown.
    Emit { block: NewBlock },
    /// Sleep, then retry the same block.
    Backoff { delay_secs: u64 },
    /// Break out of the loop and finish.
    Stop,
}

/// The block ingestor's decision core: polls the upstream chain per block
/// number and emits blocks in strictly increasing order from `start_block`.
pub struct PollingBlockIngestor {
    /// Upstream endpoint; carried for the runtime, never read by the core.
    pub rpc_url: String,
    /// The inner prover's program (opaque bytes).
    pub snos: Vec<u8>,
    pub start_block: u64,
    pub current_block: u64,
    pub channel: ChannelId,
    pub finish_handle: FinishHandle,
    /// Block numbers emitted so far, oldest first.
    pub emitted: Ghost<Seq<u64>>,
}

impl PollingBlockIngestor {
    pub open spec fn wf(self) -> bool {
        &&& self.current_block == self.start_block + self.emitted@.len()
        &&& forall|i: int|
            0 <= i < self.emitted@.len() ==> self.emitted@[i] == self.start_block + i
    }

    /// One turn of the polling loop, after the inner proving routine came
    /// back for `current_block`. Emits exactly when the routine succeeded
    /// and no shutdown was requested; the shutdown probe comes first, so no
    /// send is attempted past the signal.
    pub fn on_prove_outcome(&mut self, outcome: ProveOutcome) -> (action: IngestorAction)
        requires
            old(self).wf(),
            old(self).current_block < u64::MAX,
        ensures
            final(self).wf(),
            final(self).start_block == old(self).start_block,
            final(self).rpc_url == old(self).rpc_url,
            final(self).snos == old(self).snos,
            final(self).channel == old(self).channel,
            final(self).finish_handle == old(self).finish_handle,
            old(self).finish_handle.shutdown_requested <==> action is Stop,
            (action is Emit) <==> (!old(self).finish_handle.shutdown_requested
                && outcome is Proved),
            action matches IngestorAction::Emit { block } ==> {
                &&& block.number == old(self).current_block
                &&& outcome matches ProveOutcome::Proved { pie, n_txs } ==> block.pie == pie
                    && block.n_txs == n_txs
                &&& final(self).current_block == old(self).current_block + 1
                &&& final(self).emitted@ == old(self).emitted@.push(block.number)
            },
            !(action is Emit) ==> final(self).current_block == old(self).current_block
                && final(self).emitted@ == old(self).emitted@,
            action matches IngestorAction::Backoff { delay_secs } ==> delay_secs
                == PROVE_BLOCK_FAILURE_BACKOFF_SECS,
    {
        if self.finish_handle.is_shutdown_requested() {
            return IngestorAction::Stop;
        }
        match outcome {
            ProveOutcome::Proved { pie, n_txs } => {
                let number = self.current_block;
                self.current_block = self.current_block + 1;
                proof {
                    self.emitted@ = self.emitted@.push(number);
                }
                IngestorAction::Emit { block: NewBlock { number, pie, n_txs } }
            },
            ProveOutcome::BlockNotFound => IngestorAction::Backoff {
                delay_secs: PROVE_BLOCK_FAILURE_BACKOFF_SECS,
            },
            ProveOutcome::Error => IngestorAction::Backoff {
                delay_secs: PROVE_BLOCK_FAILURE_BACKOFF_SECS,
            },
        }
    }
}

/// Ingestor monotonicity: the emitted stream is the consecutive run of
/// block numbers that starts at `start_block`; in particular each emitted
/// number is one more than the one before it.
pub proof fn lemma_ingestor_monotonic(ing: PollingBlockIngestor)
    requires
        ing.wf(),
    ensures
        forall|i: int|
            0 <= i && i + 1 < ing.emitted@.len() ==> #[trigger] ing.emitted@[i + 1]
                == ing.emitted@[i] + 1,
        ing.emitted@.len() > 0 ==> ing.emitted@[0] == ing.start_block,
{
}

/// Builder for the polling block ingestor; finalization fails unless the
/// starting block and the output channel were both supplied.
#[derive(Debug)]
pub struct PollingBlockIngestorBuilder {
    pub rpc_url: String,
    pub snos: Vec<u8>,
    pub start_block: Option<u64>,
    pub channel: Option<ChannelId>,
}

impl PollingBlockIngestorBuilder {
    pub fn new(rpc_url: String, snos: Vec<u8>) -> (r: PollingBlockIngestorBuilder)
        ensures
            r.rpc_url == rpc_url,
            r.snos == snos,
            r.start_block is None,
            r.channel is None,
    {
        PollingBlockIngestorBuilder { rpc_url, snos, start_block: None, channel: None }
    }

    pub fn start_block(self, start_block: u64) -> (r: PollingBlockIngestorBuilder)
        ensures
            r == (PollingBlockIngestorBuilder { start_block: Some(start_block), ..self }),
    {
        PollingBlockIngestorBuilder { start_block: Some(start_block), ..self }
    }

    pub fn channel(self, channel: ChannelId) -> (r: PollingBlockIngestorBuilder)
        ensures
            r == (PollingBlockIngestorBuilder { channel: Some(channel), ..self }),
    {
        PollingBlockIngestorBuilder { channel: Some(channel), ..self }
    }

    pub fn build(self) -> (r: Result<PollingBlockIngestor, crate::service::BuildError>)
        ensures
            r is Ok <==> (self.start_block is Some && self.channel is Some),
            r matches Ok(ing) ==> {
                &&& ing.rpc_url == self.rpc_url
                &&& ing.snos == self.snos
                &&& ing.start_block == self.start_block.unwrap()
                &&& ing.current_block == self.start_block.unwrap()
                &&& ing.channel == self.channel.unwrap()
                &&& !ing.finish_handle.shutdown_requested
                &&& !ing.finish_handle.finished
                &&& ing.emitted@ == Seq::<u64>::empty()
                &&& ing.wf()
            },
    {
        match (self.start_block, self.channel) {
            (Some(start_block), Some(channel)) => Ok(PollingBlockIngestor {
                rpc_url: self.rpc_url,
                snos: self.snos,
                start_block,
                current_block: start_block,
                channel,
                finish_handle: FinishHandle::new(),
                emitted: Ghost(Seq::empty()),
            }),
            _ => Err(crate::service::BuildError::ConfigurationIncomplete),
        }
    }
}

} // verus!

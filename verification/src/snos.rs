use vstd::prelude::*;
use crate::storage::{StageStore, Step};

verus! {

/// Phases of one block's inner proving.
#[derive(Debug, Clone, Copy, PartialEq, Eq, Structural)]
pub enum SnosPhase {
    /// Nothing consulted yet.
    Started,
    /// The inner proving routine is running.
    AwaitProof,
    /// The block's inner proof was handed out.
    Done,
}

/// What the inner-prover loop must do next.
#[derive(Debug)]
pub enum SnosAction {
    /// Run the inner STARK proving routine over the block's artifact.
    Prove,
    /// Send the inner proof downstream, selecting against shutdown.
    Forward { block_number: u64, proof: Vec<u8> },
}

/// The inner (SNOS) prover stage for one block: a cached proof is returned
/// immediately and only a block without one pays for proving.
#[derive(Debug)]
pub struct SnosJob {
    pub block_number: u32,
    pub phase: SnosPhase,
}

impl SnosJob {
    pub fn new(block_number: u32) -> (r: SnosJob)
        ensures
            r.block_number == block_number,
            r.phase is Started,
    {
        SnosJob { block_number, phase: SnosPhase::Started }
    }

    /// Consult the proof cache: a hit is forwarded without recomputation,
    /// and the proving routine runs exactly when the cache is empty.
    pub fn start(&mut self, store: &StageStore) -> (action: SnosAction)
        requires
            old(self).phase is Started,
        ensures
            final(self).block_number == old(self).block_number,
            (action is Prove) <==> !store.proof_map(Step::Snos).contains_key(
                old(self).block_number,
            ),
            action is Prove ==> final(self).phase is AwaitProof,
            action matches SnosAction::Forward { block_number, proof } ==> {
                &&& block_number == old(self).block_number as u64
                &&& proof@ == store.proof_map(Step::Snos)[old(self).block_number]@
                &&& final(self).phase is Done
            },
    {
        match store.get_proof(self.block_number, Step::Snos) {
            Some(proof) => {
                self.phase = SnosPhase::Done;
                SnosAction::Forward {
                    block_number: self.block_number as u64,
                    proof: crate::felt::copy_bytes(proof),
                }
            },
            None => {
                self.phase = SnosPhase::AwaitProof;
                SnosAction::Prove
            },
        }
    }

    /// The proving routine finished: persist the proof for every later
    /// resume, then hand it out.
    pub fn on_proof_ready(&mut self, store: &mut StageStore, proof: Vec<u8>) -> (action:
        SnosAction)
        requires
            old(self).phase is AwaitProof,
        ensures
            final(self).block_number == old(self).block_number,
            final(self).phase is Done,
            final(store).proof_map(Step::Snos) == old(store).proof_map(Step::Snos).insert(
                old(self).block_number,
                proof,
            ),
            final(store).proof_map(Step::Bridge) == old(store).proof_map(Step::Bridge),
            final(store).pie_map(Step::Snos) == old(store).pie_map(Step::Snos),
            final(store).pie_map(Step::Bridge) == old(store).pie_map(Step::Bridge),
            final(store).query_id_map(crate::storage::Query::BridgeTrace) == old(
                store,
            ).query_id_map(crate::storage::Query::BridgeTrace),
            final(store).query_id_map(crate::storage::Query::BridgeProof) == old(
                store,
            ).query_id_map(crate::storage::Query::BridgeProof),
            action matches SnosAction::Forward { block_number, proof: p } ==> {
                &&& block_number == old(self).block_number as u64
                &&& p@ == proof@
            },
            action is Forward,
    {
        let out = crate::felt::copy_bytes(&proof);
        store.add_proof(self.block_number, proof, Step::Snos);
        self.phase = SnosPhase::Done;
        SnosAction::Forward { block_number: self.block_number as u64, proof: out }
    }
}

} // verus!

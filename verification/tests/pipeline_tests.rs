//! End-to-end drives of the stage machines against one in-memory store,
//! playing the runtime's role by hand.

use saya_core::bridge::{BridgeAction, BridgeJob};
use saya_core::felt::Felt;
use saya_core::ingestor::{IngestorAction, PollingBlockIngestorBuilder, ProveOutcome};
use saya_core::jobs::{AtlanticJob, AtlanticJobStatus, JobName};
use saya_core::service::{ChannelId, FinishHandle, ShutdownController};
use saya_core::settlement::{SettleAction, SettlePhase, SettlementJob};
use saya_core::snos::{SnosAction, SnosJob};
use saya_core::storage::StageStore;

fn completed(name: JobName) -> Vec<AtlanticJob> {
    vec![AtlanticJob { job_name: name, status: AtlanticJobStatus::Completed }]
}

/// Three upstream blocks flow through every stage and settle in order.
#[test]
fn three_blocks_settle_in_order() {
    let mut store = StageStore::new();
    let fh = FinishHandle::new();
    let mut ingestor =
        PollingBlockIngestorBuilder::new("http://localhost:5050".to_string(), vec![])
            .start_block(100)
            .channel(ChannelId { id: 0 })
            .build()
            .unwrap();

    let mut settled = Vec::new();
    for _ in 0..3 {
        // Ingest.
        let block = match ingestor.on_prove_outcome(ProveOutcome::Proved {
            pie: b"pie".to_vec(),
            n_txs: 1,
        }) {
            IngestorAction::Emit { block } => block,
            _ => panic!("expected an emitted block"),
        };
        let block_u32: u32 = block.number.try_into().unwrap();

        // Inner proof.
        let mut snos = SnosJob::new(block_u32);
        assert!(matches!(snos.start(&store), SnosAction::Prove));
        let inner_proof = match snos.on_proof_ready(&mut store, b"{}".to_vec()) {
            SnosAction::Forward { proof, .. } => proof,
            _ => panic!("expected the inner proof"),
        };

        // Layout bridge.
        let mut bridge = BridgeJob::new(block_u32, inner_proof, vec![Felt::from_u64(1)]);
        assert!(matches!(bridge.start(&store), BridgeAction::GenerateTrace { .. }));
        assert!(matches!(
            bridge.on_trace_outcome(&mut store, Some(b"pie".to_vec())),
            BridgeAction::SubmitProof { .. }
        ));
        bridge.on_proof_submitted(&mut store, format!("q-{}", block.number));
        assert!(matches!(
            bridge.on_job_status(&fh, Some(&completed(JobName::ProofGeneration))),
            BridgeAction::FetchProof { .. }
        ));
        let (number, _proof_bytes) =
            match bridge.on_proof_fetched(&mut store, b"bridge-proof".to_vec()) {
                BridgeAction::Forward { block_number, proof_bytes, .. } => {
                    (block_number, proof_bytes)
                },
                _ => panic!("expected a forward"),
            };

        // Settlement, mocked bridge: no verification chunks.
        let mut job = SettlementJob::new(number, Vec::new(), 40 + number);
        assert_eq!(job.phase, SettlePhase::SendingUpdate);
        match job.on_update_confirmed(Felt::from_u64(number)) {
            SettleAction::ForwardCursor { cursor } => settled.push(cursor.block_number),
            _ => panic!("expected the cursor"),
        }
    }
    assert_eq!(settled, vec![100, 101, 102]);
}

/// A controller observing every stage's drain knows the pipeline is inert.
#[test]
fn controller_counts_drains() {
    let mut controller = ShutdownController::new(2);
    controller.request_all();
    assert!(!controller.all_finished());
    controller.on_stage_finished();
    controller.on_stage_finished();
    assert!(controller.all_finished());
}

use saya_core::bridge::{
    assemble_recursive_proof, wrap_proof_input, BridgeAction, BridgeJob, BridgePhase,
};
use saya_core::felt::Felt;
use saya_core::jobs::{AtlanticJob, AtlanticJobStatus, JobName};
use saya_core::service::FinishHandle;
use saya_core::storage::{Query, StageStore, Step};

fn proof_job(status: AtlanticJobStatus) -> Vec<AtlanticJob> {
    vec![AtlanticJob { job_name: JobName::ProofGeneration, status }]
}

#[test]
fn trace_input_wraps_the_inner_proof_as_json() {
    let inner = "{\"a\": 1}";
    let wrapped = wrap_proof_input(&inner.as_bytes().to_vec());
    let expected = format!("{{\n\t\"proof\": {}\n}}", inner);
    assert_eq!(wrapped, expected.into_bytes());
}

#[test]
fn fresh_block_walks_all_checkpoints() {
    let mut store = StageStore::new();
    let fh = FinishHandle::new();
    let mut job = BridgeJob::new(100, b"{}".to_vec(), vec![Felt::from_u64(4)]);

    match job.start(&store) {
        BridgeAction::GenerateTrace { input } => {
            assert_eq!(input, wrap_proof_input(&b"{}".to_vec()))
        },
        _ => panic!("expected trace generation"),
    }
    match job.on_trace_outcome(&mut store, Some(vec![5, 5])) {
        BridgeAction::SubmitProof { pie } => assert_eq!(pie, vec![5, 5]),
        _ => panic!("expected a proof submission"),
    }
    assert_eq!(store.get_pie(100, Step::Bridge), Some(&vec![5, 5]));

    match job.on_proof_submitted(&mut store, "query-7".to_string()) {
        BridgeAction::Poll { query_id, delay_secs } => {
            assert_eq!(query_id, "query-7");
            assert_eq!(delay_secs, 10);
        },
        _ => panic!("expected polling"),
    }
    assert_eq!(store.get_query_id(100, Query::BridgeProof), Some(&"query-7".to_string()));

    match job.on_job_status(&fh, Some(&proof_job(AtlanticJobStatus::InProgress))) {
        BridgeAction::Poll { .. } => {},
        _ => panic!("expected to keep polling"),
    }
    match job.on_job_status(&fh, None) {
        BridgeAction::Poll { .. } => {},
        _ => panic!("expected a transport error to be ignored"),
    }
    match job.on_job_status(&fh, Some(&proof_job(AtlanticJobStatus::Completed))) {
        BridgeAction::FetchProof { query_id } => assert_eq!(query_id, "query-7"),
        _ => panic!("expected a fetch"),
    }
    match job.on_proof_fetched(&mut store, b"proof-bytes".to_vec()) {
        BridgeAction::Forward { block_number, snos_output, proof_bytes } => {
            assert_eq!(block_number, 100);
            assert_eq!(snos_output.len(), 1);
            assert_eq!(snos_output[0].be, Felt::from_u64(4).be);
            assert_eq!(proof_bytes, b"proof-bytes".to_vec());
        },
        _ => panic!("expected a forward"),
    }
    assert_eq!(store.get_proof(100, Step::Bridge), Some(&b"proof-bytes".to_vec()));
    assert!(matches!(job.phase, BridgePhase::Done));
}

#[test]
fn resume_after_crash_polls_the_recorded_job_and_never_resubmits() {
    let mut store = StageStore::new();
    let fh = FinishHandle::new();
    store.add_query_id(100, "old-query".to_string(), Query::BridgeProof);

    let mut job = BridgeJob::new(100, b"{}".to_vec(), vec![]);
    match job.start(&store) {
        BridgeAction::Poll { query_id, .. } => assert_eq!(query_id, "old-query"),
        _ => panic!("expected the recorded job to be resumed"),
    }
    match job.on_job_status(&fh, Some(&proof_job(AtlanticJobStatus::Completed))) {
        BridgeAction::FetchProof { query_id } => assert_eq!(query_id, "old-query"),
        _ => panic!("expected a fetch"),
    }
    match job.on_proof_fetched(&mut store, b"p".to_vec()) {
        BridgeAction::Forward { block_number, .. } => assert_eq!(block_number, 100),
        _ => panic!("expected a forward"),
    }
    assert_eq!(store.get_proof(100, Step::Bridge), Some(&b"p".to_vec()));
    assert_eq!(store.get_query_id(100, Query::BridgeProof), Some(&"old-query".to_string()));
}

#[test]
fn cached_final_proof_is_forwarded_without_any_remote_work() {
    let mut store = StageStore::new();
    store.add_proof(100, b"done".to_vec(), Step::Bridge);
    let mut job = BridgeJob::new(100, b"{}".to_vec(), vec![]);
    match job.start(&store) {
        BridgeAction::Forward { block_number, proof_bytes, .. } => {
            assert_eq!(block_number, 100);
            assert_eq!(proof_bytes, b"done".to_vec());
        },
        _ => panic!("expected an immediate forward"),
    }
}

#[test]
fn cached_pie_skips_straight_to_submission() {
    let mut store = StageStore::new();
    store.add_pie(100, vec![3, 3, 3], Step::Bridge);
    let mut job = BridgeJob::new(100, b"{}".to_vec(), vec![]);
    match job.start(&store) {
        BridgeAction::SubmitProof { pie } => assert_eq!(pie, vec![3, 3, 3]),
        _ => panic!("expected a proof submission"),
    }
}

#[test]
fn trace_generation_retries_twice_then_succeeds() {
    let mut store = StageStore::new();
    let mut job = BridgeJob::new(100, b"{}".to_vec(), vec![]);
    match job.start(&store) {
        BridgeAction::GenerateTrace { .. } => {},
        _ => panic!("expected trace generation"),
    }
    match job.on_trace_outcome(&mut store, None) {
        BridgeAction::RetryTrace { delay_secs } => assert_eq!(delay_secs, 1),
        _ => panic!("expected a retry"),
    }
    match job.on_trace_outcome(&mut store, None) {
        BridgeAction::RetryTrace { delay_secs } => assert_eq!(delay_secs, 1),
        _ => panic!("expected a retry"),
    }
    match job.on_trace_outcome(&mut store, Some(vec![8])) {
        BridgeAction::SubmitProof { pie } => assert_eq!(pie, vec![8]),
        _ => panic!("expected the third attempt to succeed"),
    }
}

#[test]
fn third_trace_failure_is_fatal() {
    let mut store = StageStore::new();
    let mut job = BridgeJob::new(100, b"{}".to_vec(), vec![]);
    job.start(&store);
    job.on_trace_outcome(&mut store, None);
    job.on_trace_outcome(&mut store, None);
    match job.on_trace_outcome(&mut store, None) {
        BridgeAction::Fatal => {},
        _ => panic!("expected the retry budget to be fatal"),
    }
    assert!(matches!(job.phase, BridgePhase::Failed));
}

#[test]
fn failed_remote_job_is_fatal() {
    let mut store = StageStore::new();
    let fh = FinishHandle::new();
    store.add_query_id(100, "q".to_string(), Query::BridgeProof);
    let mut job = BridgeJob::new(100, b"{}".to_vec(), vec![]);
    job.start(&store);
    match job.on_job_status(&fh, Some(&proof_job(AtlanticJobStatus::Failed))) {
        BridgeAction::Fatal => {},
        _ => panic!("expected a fatal stop"),
    }
    assert!(matches!(job.phase, BridgePhase::Failed));
}

#[test]
fn shutdown_wins_over_polling() {
    let mut store = StageStore::new();
    let mut fh = FinishHandle::new();
    store.add_query_id(100, "q".to_string(), Query::BridgeProof);
    let mut job = BridgeJob::new(100, b"{}".to_vec(), vec![]);
    job.start(&store);
    fh.request_shutdown();
    match job.on_job_status(&fh, Some(&proof_job(AtlanticJobStatus::Completed))) {
        BridgeAction::Stop => {},
        _ => panic!("expected a stop"),
    }
}

#[test]
fn assembled_output_carries_the_forwarded_pieces() {
    let proof = assemble_recursive_proof(100, vec![Felt::from_u64(9)], b"text".to_vec());
    assert_eq!(proof.block_number, 100);
    assert_eq!(proof.snos_output.len(), 1);
    assert_eq!(proof.layout_bridge_proof, b"text".to_vec());
}

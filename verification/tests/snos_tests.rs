use saya_core::snos::{SnosAction, SnosJob, SnosPhase};
use saya_core::storage::{StageStore, Step};

#[test]
fn fresh_block_is_proved_then_persisted_and_forwarded() {
    let mut store = StageStore::new();
    let mut job = SnosJob::new(100);
    match job.start(&store) {
        SnosAction::Prove => {},
        _ => panic!("expected proving"),
    }
    match job.on_proof_ready(&mut store, b"snos-proof".to_vec()) {
        SnosAction::Forward { block_number, proof } => {
            assert_eq!(block_number, 100);
            assert_eq!(proof, b"snos-proof".to_vec());
        },
        _ => panic!("expected a forward"),
    }
    assert_eq!(store.get_proof(100, Step::Snos), Some(&b"snos-proof".to_vec()));
    assert_eq!(job.phase, SnosPhase::Done);
}

#[test]
fn cached_proof_is_returned_without_recomputation() {
    let mut store = StageStore::new();
    store.add_proof(100, b"cached".to_vec(), Step::Snos);
    let mut job = SnosJob::new(100);
    match job.start(&store) {
        SnosAction::Forward { block_number, proof } => {
            assert_eq!(block_number, 100);
            assert_eq!(proof, b"cached".to_vec());
        },
        _ => panic!("expected the cached proof"),
    }
}

use saya_core::storage::{Query, StageStore, Step};

#[test]
fn proofs_are_kept_per_block_and_step() {
    let mut store = StageStore::new();
    assert!(store.get_proof(100, Step::Bridge).is_none());
    store.add_proof(100, vec![1, 2, 3], Step::Bridge);
    assert_eq!(store.get_proof(100, Step::Bridge), Some(&vec![1, 2, 3]));
    assert!(store.get_proof(100, Step::Snos).is_none());
    assert!(store.get_proof(101, Step::Bridge).is_none());
}

#[test]
fn pies_are_kept_per_block_and_step() {
    let mut store = StageStore::new();
    store.add_pie(7, vec![9, 9], Step::Bridge);
    assert_eq!(store.get_pie(7, Step::Bridge), Some(&vec![9, 9]));
    assert!(store.get_pie(7, Step::Snos).is_none());
}

#[test]
fn query_ids_are_kept_per_block_and_kind() {
    let mut store = StageStore::new();
    assert!(store.get_query_id(100, Query::BridgeProof).is_none());
    store.add_query_id(100, "q-1".to_string(), Query::BridgeTrace);
    assert_eq!(store.get_query_id(100, Query::BridgeTrace), Some(&"q-1".to_string()));
    assert!(store.get_query_id(100, Query::BridgeProof).is_none());
    store.add_query_id(100, "q-2".to_string(), Query::BridgeProof);
    assert_eq!(store.get_query_id(100, Query::BridgeProof), Some(&"q-2".to_string()));
    assert_eq!(store.get_query_id(100, Query::BridgeTrace), Some(&"q-1".to_string()));
}

#[test]
fn later_write_replaces_earlier() {
    let mut store = StageStore::new();
    store.add_proof(5, vec![1], Step::Snos);
    store.add_proof(5, vec![2], Step::Snos);
    assert_eq!(store.get_proof(5, Step::Snos), Some(&vec![2]));
}

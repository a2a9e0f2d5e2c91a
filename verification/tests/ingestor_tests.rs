use saya_core::ingestor::{
    IngestorAction, PollingBlockIngestorBuilder, ProveOutcome, PROVE_BLOCK_FAILURE_BACKOFF_SECS,
};
use saya_core::service::{BuildError, ChannelId};

fn built(start_block: u64) -> saya_core::ingestor::PollingBlockIngestor {
    PollingBlockIngestorBuilder::new("http://localhost:5050/rpc/v0_7".to_string(), vec![1, 2])
        .start_block(start_block)
        .channel(ChannelId { id: 1 })
        .build()
        .unwrap()
}

#[test]
fn build_fails_without_start_block() {
    let r = PollingBlockIngestorBuilder::new("u".to_string(), vec![])
        .channel(ChannelId { id: 1 })
        .build();
    assert!(matches!(r, Err(BuildError::ConfigurationIncomplete)));
}

#[test]
fn build_fails_without_channel() {
    let r = PollingBlockIngestorBuilder::new("u".to_string(), vec![]).start_block(7).build();
    assert!(matches!(r, Err(BuildError::ConfigurationIncomplete)));
}

#[test]
fn emits_consecutive_blocks_from_start() {
    let mut ing = built(100);
    let mut numbers = Vec::new();
    for _ in 0..3 {
        match ing.on_prove_outcome(ProveOutcome::Proved { pie: vec![7], n_txs: 2 }) {
            IngestorAction::Emit { block } => numbers.push(block.number),
            _ => panic!("expected an emitted block"),
        }
    }
    assert_eq!(numbers, vec![100, 101, 102]);
}

#[test]
fn missing_upstream_block_backs_off_and_stays_on_it() {
    let mut ing = built(100);
    match ing.on_prove_outcome(ProveOutcome::BlockNotFound) {
        IngestorAction::Backoff { delay_secs } => {
            assert_eq!(delay_secs, PROVE_BLOCK_FAILURE_BACKOFF_SECS)
        },
        _ => panic!("expected a backoff"),
    }
    match ing.on_prove_outcome(ProveOutcome::Error) {
        IngestorAction::Backoff { delay_secs } => assert_eq!(delay_secs, 5),
        _ => panic!("expected a backoff"),
    }
    match ing.on_prove_outcome(ProveOutcome::Proved { pie: vec![], n_txs: 0 }) {
        IngestorAction::Emit { block } => assert_eq!(block.number, 100),
        _ => panic!("expected an emitted block"),
    }
}

#[test]
fn shutdown_stops_before_any_send() {
    let mut ing = built(100);
    ing.finish_handle.request_shutdown();
    match ing.on_prove_outcome(ProveOutcome::Proved { pie: vec![1], n_txs: 1 }) {
        IngestorAction::Stop => {},
        _ => panic!("expected a stop"),
    }
    assert_eq!(ing.current_block, 100);
}

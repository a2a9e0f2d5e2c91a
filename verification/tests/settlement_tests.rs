use saya_core::felt::{short_string_felt, Felt};
use saya_core::service::{BuildError, ChannelId};
use saya_core::settlement::{
    decode_appchain_state, mock_program_output, split_calls, update_state_call, Call,
    PiltoverSettlementBackendBuilder, SettleAction, SettlePhase, SettlementJob,
    MAX_FELTS_PER_TRANSACTION,
};

fn call_with_calldata_len(n: usize) -> Call {
    let mut calldata = Vec::new();
    for i in 0..n {
        calldata.push(Felt::from_u64(i as u64));
    }
    Call { to: Felt::from_u64(1), selector: Felt::from_u64(2), calldata }
}

fn weight(c: &Call) -> usize {
    c.calldata.len() + 3
}

#[test]
fn split_calls_respects_the_envelope_and_loses_nothing() {
    let sizes = [100usize, 3990, 500, 700, 3997, 1, 1, 2000, 1500, 600];
    let calls: Vec<Call> = sizes.iter().map(|n| call_with_calldata_len(*n)).collect();
    let total: usize = calls.len();
    let chunks = split_calls(calls);

    assert!(chunks.len() > 1);
    let mut flattened = 0usize;
    for chunk in &chunks {
        assert!(!chunk.is_empty());
        let w: usize = chunk.iter().map(weight).sum();
        assert!(w <= MAX_FELTS_PER_TRANSACTION);
        flattened += chunk.len();
    }
    assert_eq!(flattened, total);

    // Concatenation preserves the original order.
    let rebuilt: Vec<usize> =
        chunks.iter().flat_map(|c| c.iter().map(|x| x.calldata.len())).collect();
    assert_eq!(rebuilt, sizes.to_vec());
}

#[test]
fn split_calls_of_nothing_is_nothing() {
    assert!(split_calls(Vec::new()).is_empty());
}

#[test]
fn one_maximal_call_fills_one_chunk() {
    let calls = vec![call_with_calldata_len(MAX_FELTS_PER_TRANSACTION - 3)];
    let chunks = split_calls(calls);
    assert_eq!(chunks.len(), 1);
    assert_eq!(chunks[0].len(), 1);
}

#[test]
fn oversized_proof_settles_with_consecutive_nonces_and_one_update() {
    let chunks = vec![
        vec![call_with_calldata_len(10)],
        vec![call_with_calldata_len(20)],
        vec![call_with_calldata_len(30)],
    ];
    let mut job = SettlementJob::new(100, chunks, 7);
    let mut nonces = Vec::new();
    let mut updates = 0usize;
    loop {
        match job.phase {
            SettlePhase::SubmittingChunks => match job.next_action() {
                SettleAction::SendChunk { index, nonce } => {
                    assert_eq!(index, nonces.len());
                    nonces.push(nonce);
                    job.on_chunk_confirmed(10);
                },
                _ => panic!("expected a chunk send"),
            },
            SettlePhase::SendingUpdate => match job.next_action() {
                SettleAction::SendUpdateState => {
                    updates += 1;
                    match job.on_update_confirmed(Felt::from_u64(0xabc)) {
                        SettleAction::ForwardCursor { cursor } => {
                            assert_eq!(cursor.block_number, 100);
                            assert_eq!(cursor.transaction_hash.be, Felt::from_u64(0xabc).be);
                        },
                        _ => panic!("expected the cursor"),
                    }
                },
                _ => panic!("expected the state update"),
            },
            SettlePhase::Done => break,
        }
    }
    assert_eq!(nonces, vec![7, 8, 9]);
    assert_eq!(updates, 1);
    assert_eq!(job.total_fee, 30);
}

#[test]
fn mocked_bridge_skips_the_fact_registry() {
    let mut job = SettlementJob::new(42, Vec::new(), 3);
    assert_eq!(job.phase, SettlePhase::SendingUpdate);
    match job.next_action() {
        SettleAction::SendUpdateState => {},
        _ => panic!("expected the state update at once"),
    }
    job.on_update_confirmed(Felt::from_u64(1));
    assert_eq!(job.phase, SettlePhase::Done);
}

#[test]
fn mock_program_output_hashes_the_inner_output_into_slot_four() {
    let snos_output = vec![Felt::from_u64(11), Felt::from_u64(22)];
    let out = mock_program_output(&snos_output);
    assert_eq!(out.len(), 5);
    for slot in &out[..4] {
        assert_eq!(slot.be, vec![0u8; 32]);
    }
    let expected = starknet_crypto::poseidon_hash_many(&[
        starknet_types_core::felt::Felt::from(11u64),
        starknet_types_core::felt::Felt::from(22u64),
    ]);
    assert_eq!(out[4].be, expected.to_bytes_be().to_vec());
}

#[test]
fn update_state_calldata_is_the_documented_encoding() {
    let snos_output = vec![Felt::from_u64(5), Felt::from_u64(6)];
    let program_output = vec![Felt::from_u64(7)];
    let to = Felt::from_u64(0xdead);
    let call = update_state_call(&to, &snos_output, &program_output);
    assert_eq!(call.to.be, to.be);
    let expected_selector = starknet::core::utils::get_selector_from_name("update_state")
        .unwrap()
        .to_bytes_be()
        .to_vec();
    assert_eq!(call.selector.be, expected_selector);
    let expected: Vec<Vec<u8>> = vec![
        Felt::from_u64(2).be,
        Felt::from_u64(5).be,
        Felt::from_u64(6).be,
        Felt::from_u64(1).be,
        Felt::from_u64(7).be,
        vec![0u8; 32],
        vec![0u8; 32],
        vec![0u8; 32],
    ];
    let got: Vec<Vec<u8>> = call.calldata.iter().map(|f| f.be.clone()).collect();
    assert_eq!(got, expected);
}

#[test]
fn appchain_state_decodes_three_words() {
    let raw = vec![Felt::from_u64(1), Felt::from_u64(4242), Felt::from_u64(3)];
    let state = decode_appchain_state(&raw).unwrap();
    assert_eq!(state.block_number, 4242);
    assert_eq!(state.get_block_number(), 4242);
    assert_eq!(state.state_root.be, Felt::from_u64(1).be);
    assert_eq!(state.block_hash.be, Felt::from_u64(3).be);
}

#[test]
fn appchain_state_rejects_bad_answers() {
    assert!(decode_appchain_state(&vec![Felt::from_u64(1)]).is_none());
    let mut big = vec![0u8; 32];
    big[0] = 1;
    let raw = vec![Felt::from_u64(1), Felt { be: big }, Felt::from_u64(3)];
    assert!(decode_appchain_state(&raw).is_none());
}

#[test]
fn verifier_tags_use_the_short_string_convention() {
    let layout = short_string_felt(b"recursive_with_poseidon");
    let expected = starknet_types_core::felt::Felt::from_bytes_be_slice(
        b"recursive_with_poseidon",
    );
    assert_eq!(layout.be, expected.to_bytes_be().to_vec());
}

#[test]
fn settlement_builder_needs_both_channels() {
    let base = || {
        PiltoverSettlementBackendBuilder::new(
            "http://localhost:5050".to_string(),
            Felt::from_u64(1),
            Felt::from_u64(2),
            Felt::from_u64(3),
            Felt::from_u64(4),
            false,
        )
    };
    assert!(matches!(base().build(), Err(BuildError::ConfigurationIncomplete)));
    assert!(matches!(
        base().da_channel(ChannelId { id: 1 }).build(),
        Err(BuildError::ConfigurationIncomplete)
    ));
    let backend = base()
        .da_channel(ChannelId { id: 1 })
        .cursor_channel(ChannelId { id: 2 })
        .build()
        .unwrap();
    assert!(!backend.use_mock_layout_bridge);
}

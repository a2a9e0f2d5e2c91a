use vstd::prelude::*;
use crate::felt::{felt_bytes_of_u64, felts_view, zero_bytes, Felt};
use crate::service::{BuildError, ChannelId, FinishHandle};

verus! {

/// A cursor marking that a block's payload was published for data
/// availability; the settlement stage consumes it.
#[derive(Debug)]
pub struct DataAvailabilityCursor<P> {
    pub block_number: u64,
    pub full_payload: P,
}

/// Terminal output of the pipeline: the block was settled on-chain.
#[derive(Debug)]
pub struct SettlementCursor {
    pub block_number: u64,
    pub transaction_hash: Felt,
}

/// One contract call of the settlement chain.
#[derive(Debug)]
pub struct Call {
    pub to: Felt,
    pub selector: Felt,
    pub calldata: Vec<Felt>,
}

/// The host chain's per-transaction envelope, measured in field elements
/// of encoded calldata; each call costs its calldata plus the fixed
/// per-call framing (address, selector, length prefix).
pub const MAX_FELTS_PER_TRANSACTION: usize = 4000;

pub open spec fn call_weight(c: Call) -> int {
    c.calldata@.len() as int + 3
}

pub open spec fn chunk_weight(chunk: Seq<Call>) -> int
    decreases chunk.len(),
{
    if chunk.len() == 0 {
        0
    } else {
        call_weight(chunk[0]) + chunk_weight(chunk.drop_first())
    }
}

/// All chunks in order, flattened back into one call sequence.
pub open spec fn concat_chunks(chunks: Seq<Vec<Call>>) -> Seq<Call>
    decreases chunks.len(),
{
    if chunks.len() == 0 {
        Seq::empty()
    } else {
        chunks[0]@ + concat_chunks(chunks.drop_first())
    }
}

proof fn lemma_concat_push(chunks: Seq<Vec<Call>>, c: Vec<Call>)
    ensures
        concat_chunks(chunks.push(c)) == concat_chunks(chunks) + c@,
    decreases chunks.len(),
{
    if chunks.len() == 0 {
        assert(chunks.push(c).drop_first() =~= Seq::<Vec<Call>>::empty());
        assert(chunks.push(c)[0] == c);
        assert(concat_chunks(chunks.push(c)) == c@ + concat_chunks(
            Seq::<Vec<Call>>::empty(),
        ));
        assert(concat_chunks(chunks.push(c)) =~= concat_chunks(chunks) + c@);
    } else {
        assert(chunks.push(c).drop_first() =~= chunks.drop_first().push(c));
        assert(chunks.push(c)[0] == chunks[0]);
        lemma_concat_push(chunks.drop_first(), c);
        assert(concat_chunks(chunks.push(c)) == chunks[0]@ + (concat_chunks(chunks.drop_first())
            + c@));
        assert(concat_chunks(chunks.push(c)) =~= concat_chunks(chunks) + c@);
    }
}

proof fn lemma_chunk_weight_push(chunk: Seq<Call>, c: Call)
    ensures
        chunk_weight(chunk.push(c)) == chunk_weight(chunk) + call_weight(c),
    decreases chunk.len(),
{
    if chunk.len() == 0 {
        assert(chunk.push(c).drop_first() =~= Seq::<Call>::empty());
        assert(chunk.push(c)[0] == c);
        assert(chunk_weight(chunk.push(c)) == call_weight(c) + chunk_weight(
            Seq::<Call>::empty(),
        ));
    } else {
        assert(chunk.push(c).drop_first() =~= chunk.drop_first().push(c));
        assert(chunk.push(c)[0] == chunk[0]);
        lemma_chunk_weight_push(chunk.drop_first(), c);
    }
}

/// Partition a call list into chunks that each fit the per-transaction
/// envelope. Greedy in order: a call joins the open chunk unless that
/// would burst the envelope. The chunks concatenate back to exactly the
/// input, every chunk fits the envelope, and no chunk is empty.
pub fn split_calls(calls: Vec<Call>) -> (chunks: Vec<Vec<Call>>)
    requires
        forall|i: int| 0 <= i < calls@.len() ==> call_weight(calls@[i])
            <= MAX_FELTS_PER_TRANSACTION,
    ensures
        concat_chunks(chunks@) == calls@,
        forall|i: int| 0 <= i < chunks@.len() ==> chunk_weight(chunks@[i]@)
            <= MAX_FELTS_PER_TRANSACTION,
        forall|i: int| 0 <= i < chunks@.len() ==> chunks@[i]@.len() > 0,
        calls@.len() > 0 ==> chunks@.len() > 0,
{
    let ghost original = calls@;
    let mut rest = calls;
    let mut chunks: Vec<Vec<Call>> = Vec::new();
    let mut current: Vec<Call> = Vec::new();
    let mut current_weight: usize = 0;
    while rest.len() > 0
        invariant
            concat_chunks(chunks@) + current@ + rest@ == original,
            forall|i: int| 0 <= i < chunks@.len() ==> chunk_weight(chunks@[i]@)
                <= MAX_FELTS_PER_TRANSACTION,
            forall|i: int| 0 <= i < chunks@.len() ==> chunks@[i]@.len() > 0,
            chunk_weight(current@) == current_weight,
            current_weight <= MAX_FELTS_PER_TRANSACTION,
            forall|i: int| 0 <= i < rest@.len() ==> call_weight(rest@[i])
                <= MAX_FELTS_PER_TRANSACTION,
            chunks@.len() > 0 || current@.len() > 0 || rest@ == original,
        decreases rest@.len(),
    {
        let ghost rest0 = rest@;
        let c = rest.remove(0);
        proof {
            assert(rest@ =~= rest0.drop_first());
            assert(c == rest0[0]);
        }
        let w = c.calldata.len() + 3;
        if current.len() > 0 && current_weight + w > MAX_FELTS_PER_TRANSACTION {
            let ghost chunks0 = chunks@;
            let ghost current_full = current@;
            let full = current;
            chunks.push(full);
            proof {
                lemma_concat_push(chunks0, full);
                assert(concat_chunks(chunks@) =~= concat_chunks(chunks0) + current_full);
            }
            current = Vec::new();
            current_weight = 0;
            proof {
                assert(concat_chunks(chunks@) + current@ + rest0 =~= original);
            }
        }
        let ghost current0 = current@;
        current.push(c);
        proof {
            lemma_chunk_weight_push(current0, c);
            assert(current@ =~= current0.push(c));
            assert(current0.push(c) + rest@ =~= current0 + rest0);
            assert(concat_chunks(chunks@) + current@ + rest@ =~= concat_chunks(chunks@) + (
            current0.push(c) + rest@));
            assert(concat_chunks(chunks@) + (current0 + rest0) =~= original);
            assert(concat_chunks(chunks@) + current@ + rest@ =~= original);
        }
        current_weight = current_weight + w;
    }
    if current.len() > 0 {
        let ghost chunks0 = chunks@;
        let ghost current_full = current@;
        let full = current;
        chunks.push(full);
        proof {
            lemma_concat_push(chunks0, full);
            assert(concat_chunks(chunks@) =~= concat_chunks(chunks0) + current_full);
        }
    }
    proof {
        assert(concat_chunks(chunks@) =~= original);
    }
    chunks
}

// ----------------------------------------------------------------------
// Program output and update-state call assembly.
// ----------------------------------------------------------------------

/// Relies on `starknet_crypto::poseidon_hash_many`: the digest is a
/// function of the input field elements alone.
pub uninterp spec fn poseidon_hash_of(inputs: Seq<Seq<u8>>) -> Seq<u8>;

/// Relies on `starknet_crypto::poseidon_hash_many`, converting each input
/// from and the digest back to 32-byte big-endian form.
#[verifier::external_body]
pub fn poseidon_hash_many_felts(inputs: &Vec<Felt>) -> (r: Felt)
    requires
        forall|i: int| 0 <= i < inputs@.len() ==> (#[trigger] inputs@[i]).wf(),
    ensures
        r.wf(),
        r.bytes() == poseidon_hash_of(felts_view(inputs@)),
{
    let mut converted: Vec<starknet_types_core::felt::Felt> = Vec::new();
    for f in inputs.iter() {
        let mut be = [0u8; 32];
        be.copy_from_slice(f.be.as_slice());
        converted.push(starknet_types_core::felt::Felt::from_bytes_be(&be));
    }
    let digest = starknet_crypto::poseidon_hash_many(&converted);
    Felt { be: digest.to_bytes_be().to_vec() }
}

/// The five-slot program output used when the layout-bridge proof is
/// mocked: the fact registry then accepts anything, and only slot 4 — the
/// inner proof's output hash — must be correct.
pub fn mock_program_output(snos_output: &Vec<Felt>) -> (r: Vec<Felt>)
    requires
        forall|i: int| 0 <= i < snos_output@.len() ==> (#[trigger] snos_output@[i]).wf(),
    ensures
        r@.len() == 5,
        forall|i: int| 0 <= i < 4 ==> (#[trigger] r@[i]).is_zero(),
        r@[4].bytes() == poseidon_hash_of(felts_view(snos_output@)),
        forall|i: int| 0 <= i < 5 ==> (#[trigger] r@[i]).wf(),
{
    let mut r: Vec<Felt> = Vec::new();
    r.push(Felt::zero());
    r.push(Felt::zero());
    r.push(Felt::zero());
    r.push(Felt::zero());
    r.push(poseidon_hash_many_felts(snos_output));
    r
}

/// Relies on `starknet::core::utils::get_selector_from_name`: an entry
/// point's selector is a function of its ASCII name alone (the Starknet
/// Keccak of the name, with the two built-in default entry points mapped
/// to zero).
pub uninterp spec fn selector_of(name: Seq<char>) -> Seq<u8>;

/// Relies on `starknet::core::utils::get_selector_from_name`, converting
/// the selector to its 32-byte big-endian form; the function rejects only
/// non-ASCII names, which the caller rules out.
#[verifier::external_body]
fn entry_point_selector(name: &str) -> (r: Felt)
    requires
        vstd::utf8::is_ascii_chars(name@),
    ensures
        r.wf(),
        r.bytes() == selector_of(name@),
{
    let selector = starknet::core::utils::get_selector_from_name(name)
        .unwrap_or(starknet_types_core::felt::Felt::ZERO);
    Felt { be: selector.to_bytes_be().to_vec() }
}

/// The encoded `update_state` calldata: both field-element lists with
/// their length prefixes, then a zero on-chain data hash and a zero
/// two-word on-chain data size.
pub open spec fn update_state_calldata_bytes(
    snos_output: Seq<Seq<u8>>,
    program_output: Seq<Seq<u8>>,
) -> Seq<Seq<u8>> {
    seq![felt_bytes_of_u64(snos_output.len() as u64)] + snos_output + seq![
        felt_bytes_of_u64(program_output.len() as u64),
    ] + program_output + seq![zero_bytes(), zero_bytes(), zero_bytes()]
}

/// Assemble the settlement contract's `update_state` call, addressed to
/// the contract's entry point of that name.
pub fn update_state_call(
    piltover_address: &Felt,
    snos_output: &Vec<Felt>,
    program_output: &Vec<Felt>,
) -> (r: Call)
    requires
        snos_output@.len() <= 0xffff_ffff_ffff_ffff,
        program_output@.len() <= 0xffff_ffff_ffff_ffff,
    ensures
        r.to.bytes() == piltover_address.bytes(),
        r.selector.bytes() == selector_of("update_state"@),
        felts_view(r.calldata@) == update_state_calldata_bytes(
            felts_view(snos_output@),
            felts_view(program_output@),
        ),
{
    proof {
        reveal_strlit("update_state");
        assert(vstd::utf8::is_ascii_chars("update_state"@));
    }
    let selector = entry_point_selector("update_state");
    let ns = snos_output.len();
    let np = program_output.len();
    let mut calldata: Vec<Felt> = Vec::new();
    calldata.push(Felt::from_u64(ns as u64));
    let mut i: usize = 0;
    while i < ns
        invariant
            ns == snos_output@.len(),
            i <= ns,
            calldata@.len() == 1 + i,
            calldata@[0].be@ == felt_bytes_of_u64(ns as u64),
            forall|j: int| 0 <= j < i ==> #[trigger] calldata@[1 + j].be@
                == snos_output@[j].be@,
        decreases ns - i,
    {
        calldata.push(snos_output[i].dup());
        i = i + 1;
    }
    calldata.push(Felt::from_u64(np as u64));
    let mut k: usize = 0;
    while k < np
        invariant
            ns == snos_output@.len(),
            np == program_output@.len(),
            k <= np,
            calldata@.len() == 2 + ns + k,
            calldata@[0].be@ == felt_bytes_of_u64(ns as u64),
            forall|j: int| 0 <= j < ns ==> #[trigger] calldata@[1 + j].be@
                == snos_output@[j].be@,
            calldata@[1 + ns as int].be@ == felt_bytes_of_u64(np as u64),
            forall|j: int| 0 <= j < k ==> #[trigger] calldata@[2 + ns + j].be@
                == program_output@[j].be@,
        decreases np - k,
    {
        calldata.push(program_output[k].dup());
        k = k + 1;
    }
    let ghost body = calldata@;
    calldata.push(Felt::zero());
    calldata.push(Felt::zero());
    calldata.push(Felt::zero());
    let r = Call { to: piltover_address.dup(), selector, calldata };
    proof {
        let lhs = felts_view(r.calldata@);
        let rhs = update_state_calldata_bytes(
            felts_view(snos_output@),
            felts_view(program_output@),
        );
        let nsi = ns as int;
        let npi = np as int;
        assert(lhs.len() == rhs.len());
        assert forall|j: int| 0 <= j < rhs.len() implies lhs[j] == rhs[j] by {
            assert(lhs[j] == r.calldata@[j].be@);
            if j < 2 + nsi + npi {
                assert(r.calldata@[j] == body[j]);
                if j == 0 {
                    assert(rhs[j] == felt_bytes_of_u64(ns as u64));
                } else if j < 1 + nsi {
                    assert(body[1 + (j - 1)].be@ == snos_output@[j - 1].be@);
                    assert(rhs[j] == felts_view(snos_output@)[j - 1]);
                } else if j == 1 + nsi {
                    assert(rhs[j] == felt_bytes_of_u64(np as u64));
                } else {
                    assert(body[2 + nsi + (j - 2 - nsi)].be@ == program_output@[j - 2
                        - nsi].be@);
                    assert(rhs[j] == felts_view(program_output@)[j - 2 - nsi]);
                }
            } else {
                assert(rhs[j] == zero_bytes());
            }
        }
        assert(lhs =~= rhs);
    }
    r
}

// ----------------------------------------------------------------------
// The per-block settlement machine.
// ----------------------------------------------------------------------

/// Phases of settling one block.
#[derive(Debug, Clone, Copy, PartialEq, Eq, Structural)]
pub enum SettlePhase {
    /// Verification chunks are being sent, one transaction each.
    SubmittingChunks,
    /// All chunks confirmed; the state-update transaction is next.
    SendingUpdate,
    /// The settlement cursor went out; nothing is left to do.
    Done,
}

/// What the settlement loop must do next.
#[derive(Debug)]
pub enum SettleAction {
    /// Send verification chunk `index` as one transaction under `nonce`,
    /// and watch it to confirmation.
    SendChunk { index: usize, nonce: u64 },
    /// Send the `update_state` transaction and watch it to confirmation.
    SendUpdateState,
    /// Hand the cursor to the next stage, selecting against shutdown.
    ForwardCursor { cursor: SettlementCursor },
}

/// One block's progress through settlement: the proof's verification
/// chunks go out strictly in order under consecutive nonces from a single
/// fetched starting nonce, then exactly one state-update transaction.
#[derive(Debug)]
pub struct SettlementJob {
    pub block_number: u64,
    pub chunks: Vec<Vec<Call>>,
    pub next_chunk: usize,
    pub start_nonce: u64,
    pub total_fee: u128,
    pub phase: SettlePhase,
}

impl SettlementJob {
    pub open spec fn wf(self) -> bool {
        &&& self.next_chunk <= self.chunks@.len()
        &&& self.start_nonce + self.chunks@.len() <= u64::MAX
        &&& self.total_fee as int <= (self.next_chunk as int) * (u64::MAX as int)
        &&& (self.phase is SubmittingChunks ==> self.next_chunk < self.chunks@.len())
        &&& (self.phase is SendingUpdate ==> self.next_chunk == self.chunks@.len())
    }

    /// Start settling a block: the verification chunks (empty when the
    /// fact registry is skipped) and the account's current nonce.
    pub fn new(block_number: u64, chunks: Vec<Vec<Call>>, start_nonce: u64) -> (r: SettlementJob)
        requires
            start_nonce + chunks@.len() <= u64::MAX,
        ensures
            r.wf(),
            r.block_number == block_number,
            r.chunks == chunks,
            r.next_chunk == 0,
            r.start_nonce == start_nonce,
            r.total_fee == 0,
            r.phase == (if chunks@.len() == 0 {
                SettlePhase::SendingUpdate
            } else {
                SettlePhase::SubmittingChunks
            }),
    {
        let phase = if chunks.len() == 0 {
            SettlePhase::SendingUpdate
        } else {
            SettlePhase::SubmittingChunks
        };
        SettlementJob {
            block_number,
            chunks,
            next_chunk: 0,
            start_nonce,
            total_fee: 0,
            phase,
        }
    }

    /// The next transaction to send. Chunk `k` always goes out under
    /// nonce `start_nonce + k`: consecutive nonces, in chunk order.
    pub fn next_action(&self) -> (a: SettleAction)
        requires
            self.wf(),
            !(self.phase is Done),
        ensures
            self.phase is SubmittingChunks ==> (a matches SettleAction::SendChunk {
                index,
                nonce,
            } && index == self.next_chunk && nonce == self.start_nonce + self.next_chunk),
            self.phase is SendingUpdate ==> a is SendUpdateState,
    {
        match self.phase {
            SettlePhase::SubmittingChunks => SettleAction::SendChunk {
                index: self.next_chunk,
                nonce: self.start_nonce + (self.next_chunk as u64),
            },
            SettlePhase::SendingUpdate => SettleAction::SendUpdateState,
            SettlePhase::Done => SettleAction::SendUpdateState,
        }
    }

    /// A chunk's transaction confirmed: account its fee and move to the
    /// next chunk, or to the state update once all chunks are in.
    pub fn on_chunk_confirmed(&mut self, fee: u64)
        requires
            old(self).wf(),
            old(self).phase is SubmittingChunks,
        ensures
            final(self).wf(),
            final(self).block_number == old(self).block_number,
            final(self).chunks == old(self).chunks,
            final(self).start_nonce == old(self).start_nonce,
            final(self).next_chunk == old(self).next_chunk + 1,
            final(self).total_fee == old(self).total_fee + fee,
            final(self).phase == (if old(self).next_chunk + 1 == old(self).chunks@.len() {
                SettlePhase::SendingUpdate
            } else {
                SettlePhase::SubmittingChunks
            }),
    {
        let ghost prev_total = self.total_fee as int;
        let ghost prev_next = self.next_chunk as int;
        proof {
            assert(prev_total + fee <= u128::MAX) by (nonlinear_arith)
                requires
                    0 <= prev_total,
                    0 <= prev_next,
                    prev_total <= prev_next * (u64::MAX as int),
                    prev_next <= usize::MAX as int,
                    fee as int <= u64::MAX as int,
            ;
        }
        self.total_fee = self.total_fee + (fee as u128);
        let n = self.chunks.len();
        self.next_chunk = self.next_chunk + 1;
        proof {
            let cur_total = self.total_fee as int;
            let cur_next = self.next_chunk as int;
            assert(cur_total <= cur_next * (u64::MAX as int)) by (nonlinear_arith)
                requires
                    cur_total <= (cur_next - 1) * (u64::MAX as int) + u64::MAX as int,
            ;
        }
        if self.next_chunk == n {
            self.phase = SettlePhase::SendingUpdate;
        }
    }

    /// The state-update transaction confirmed: emit the terminal cursor.
    pub fn on_update_confirmed(&mut self, transaction_hash: Felt) -> (a: SettleAction)
        requires
            old(self).wf(),
            old(self).phase is SendingUpdate,
        ensures
            final(self).wf(),
            final(self).phase is Done,
            final(self).block_number == old(self).block_number,
            a matches SettleAction::ForwardCursor { cursor } ==> cursor.block_number
                == old(self).block_number && cursor.transaction_hash.bytes()
                == transaction_hash.bytes(),
            a is ForwardCursor,
    {
        self.phase = SettlePhase::Done;
        SettleAction::ForwardCursor {
            cursor: SettlementCursor { block_number: self.block_number, transaction_hash },
        }
    }
}

// ----------------------------------------------------------------------
// The settlement contract's state view.
// ----------------------------------------------------------------------

/// The decoded answer of the settlement contract's `get_state` view.
#[derive(Debug)]
pub struct AppchainState {
    pub state_root: Felt,
    pub block_number: u64,
    pub block_hash: Felt,
}

impl AppchainState {
    /// The orchestrator's source of truth for the next block to settle.
    pub fn get_block_number(&self) -> (r: u64)
        ensures
            r == self.block_number,
    {
        self.block_number
    }
}

/// Decode the three-word `get_state` answer: state root, block number,
/// block hash. Fails exactly when the word count is off or the block
/// number does not fit in 64 bits.
pub fn decode_appchain_state(raw: &Vec<Felt>) -> (r: Option<AppchainState>)
    requires
        forall|i: int| 0 <= i < raw@.len() ==> (#[trigger] raw@[i]).wf(),
    ensures
        r is Some <==> (raw@.len() == 3 && (forall|j: int|
            0 <= j < 24 ==> raw@[1].bytes()[j] == 0u8)),
        r matches Some(state) ==> {
            &&& state.state_root.bytes() == raw@[0].bytes()
            &&& felt_bytes_of_u64(state.block_number) == raw@[1].bytes()
            &&& state.block_hash.bytes() == raw@[2].bytes()
        },
{
    if raw.len() != 3 {
        return None;
    }
    if !raw[1].fits_u64() {
        return None;
    }
    let block_number = raw[1].as_u64();
    Some(
        AppchainState {
            state_root: raw[0].dup(),
            block_number,
            block_hash: raw[2].dup(),
        },
    )
}

// ----------------------------------------------------------------------
// The stage and its builder.
// ----------------------------------------------------------------------

/// The settlement backend against the on-chain fact registry and the
/// settlement contract.
#[derive(Debug)]
pub struct PiltoverSettlementBackend {
    /// Host-chain endpoint; carried for the runtime, never read here.
    pub rpc_url: String,
    pub integrity_address: Felt,
    pub piltover_address: Felt,
    pub account_address: Felt,
    pub account_private_key: Felt,
    pub da_channel: ChannelId,
    pub cursor_channel: ChannelId,
    pub finish_handle: FinishHandle,
    pub use_mock_layout_bridge: bool,
}

#[derive(Debug)]
pub struct PiltoverSettlementBackendBuilder {
    pub rpc_url: String,
    pub integrity_address: Felt,
    pub piltover_address: Felt,
    pub account_address: Felt,
    pub account_private_key: Felt,
    pub da_channel: Option<ChannelId>,
    pub cursor_channel: Option<ChannelId>,
    pub use_mock_layout_bridge: bool,
}

impl PiltoverSettlementBackendBuilder {
    pub fn new(
        rpc_url: String,
        integrity_address: Felt,
        piltover_address: Felt,
        account_address: Felt,
        account_private_key: Felt,
        use_mock_layout_bridge: bool,
    ) -> (r: PiltoverSettlementBackendBuilder)
        ensures
            r.rpc_url == rpc_url,
            r.integrity_address == integrity_address,
            r.piltover_address == piltover_address,
            r.account_address == account_address,
            r.account_private_key == account_private_key,
            r.use_mock_layout_bridge == use_mock_layout_bridge,
            r.da_channel is None,
            r.cursor_channel is None,
    {
        PiltoverSettlementBackendBuilder {
            rpc_url,
            integrity_address,
            piltover_address,
            account_address,
            account_private_key,
            da_channel: None,
            cursor_channel: None,
            use_mock_layout_bridge,
        }
    }

    pub fn da_channel(self, da_channel: ChannelId) -> (r: PiltoverSettlementBackendBuilder)
        ensures
            r == (PiltoverSettlementBackendBuilder { da_channel: Some(da_channel), ..self }),
    {
        PiltoverSettlementBackendBuilder { da_channel: Some(da_channel), ..self }
    }

    pub fn cursor_channel(self, cursor_channel: ChannelId) -> (r: PiltoverSettlementBackendBuilder)
        ensures
            r == (PiltoverSettlementBackendBuilder {
                cursor_channel: Some(cursor_channel),
                ..self
            }),
    {
        PiltoverSettlementBackendBuilder { cursor_channel: Some(cursor_channel), ..self }
    }

    pub fn build(self) -> (r: Result<PiltoverSettlementBackend, BuildError>)
        ensures
            r is Ok <==> (self.da_channel is Some && self.cursor_channel is Some),
            r matches Ok(b) ==> {
                &&& b.rpc_url == self.rpc_url
                &&& b.integrity_address == self.integrity_address
                &&& b.piltover_address == self.piltover_address
                &&& b.account_address == self.account_address
                &&& b.account_private_key == self.account_private_key
                &&& b.da_channel == self.da_channel.unwrap()
                &&& b.cursor_channel == self.cursor_channel.unwrap()
                &&& b.use_mock_layout_bridge == self.use_mock_layout_bridge
                &&& !b.finish_handle.shutdown_requested
                &&& !b.finish_handle.finished
            },
    {
        match (self.da_channel, self.cursor_channel) {
            (Some(da_channel), Some(cursor_channel)) => Ok(PiltoverSettlementBackend {
                rpc_url: self.rpc_url,
                integrity_address: self.integrity_address,
                piltover_address: self.piltover_address,
                account_address: self.account_address,
                account_private_key: self.account_private_key,
                da_channel,
                cursor_channel,
                finish_handle: FinishHandle::new(),
                use_mock_layout_bridge: self.use_mock_layout_bridge,
            }),
            _ => Err(BuildError::ConfigurationIncomplete),
        }
    }
}

} // verus!

//! What holds of the steps together, proved from what each of them states.

use vstd::prelude::*;
use crate::abi::{
    abi_decoding, abi_encoding, lemma_decoding_of_encoding, AbiItem, AbiKind, MAX_ENCODING,
};
use crate::bridge::{
    finalize_block_call, finalize_block_len, lemma_submit_block_round_trip, message_kinds, message_of, payload_of,
    submit_block_call, submit_block_len,
};
use crate::finalize::{
    after_block, after_proof, discarded, finalize_keeps, finalize_step, lemma_block_within,
    lemma_discarded_within, lemma_pending_inserted, lemma_pending_removed, lemma_slots_bound,
    next_active, slots_within,
    verdict_of, FinalizeAction, FinalizeCursor, FinalizeEvent, FinalizePhase, Verdict,
};
use crate::hashing::is_keccak_of;
use crate::mine::{mine_keeps, mine_step, MineAction, MineEvent, MinePhase};
use crate::primitives::H256;
use crate::shared_state::{RoState, RwView, MAX_PENDING_PROOFS};
use crate::structs::{BeaconView, Block, ChainView, Log, ProofsView};
use crate::submit::{submit_step, submit_transaction, SubmitAction, SubmitCursor, SubmitEvent, SubmitPhase};
use crate::sync::{
    lemma_after_logs_keeps, lemma_next_stop, next_stop, sync_keeps, sync_step, SyncAction,
    SyncCursor, SyncEvent, SyncPhase,
};

verus! {

/// No move of the sync step takes `last_sync_block` back, and none touches
/// the head, the proof requests or their counter.
pub proof fn law_sync_keeps(
    ro: RoState,
    before: RwView,
    cursor: SyncCursor,
    event: SyncEvent,
    after: RwView,
    next: SyncCursor,
    action: SyncAction,
)
    requires
        sync_step(ro, before, cursor, event, after, next, action),
    ensures
        sync_keeps(before, after),
{
    match (cursor.phase, event) {
        (SyncPhase::Logs, SyncEvent::Logs(logs)) => {
            lemma_next_stop(ro, logs@, 0);
            lemma_after_logs_keeps(ro, before, logs@, 0, next_stop(ro, logs@, 0));
        },
        (SyncPhase::Transaction, SyncEvent::Transaction(input)) => {
            if cursor.index < cursor.logs@.len() && payload_of(input@) is None {
                let start = cursor.index + 1;
                lemma_next_stop(ro, cursor.logs@, start);
                lemma_after_logs_keeps(ro, before, cursor.logs@, start, next_stop(ro, cursor.logs@, start));
            }
        },
        (SyncPhase::Header, SyncEvent::Header(known)) => {
            if cursor.index < cursor.logs@.len() {
                let noted = if known {
                    RwView { chain: ChainView { safe: cursor.block_hash@, ..before.chain }, ..before }
                } else {
                    before
                };
                let start = cursor.index + 1;
                lemma_next_stop(ro, cursor.logs@, start);
                lemma_after_logs_keeps(ro, noted, cursor.logs@, start, next_stop(ro, cursor.logs@, start));
            }
        },
        _ => {},
    }
}

/// No move of the mine step touches `last_sync_block`, the safe or the
/// finalized head, the proof requests or their counter.
pub proof fn law_mine_keeps(
    ro: RoState,
    before: RwView,
    phase: MinePhase,
    event: MineEvent,
    after: RwView,
    next: MinePhase,
    action: MineAction,
)
    requires
        mine_step(ro, before, phase, event, after, next, action),
    ensures
        mine_keeps(before, after),
{
}

/// Where the settlement chain has no block beyond `last_sync_block`, a run of
/// the sync step is over at once and changes nothing.
pub proof fn law_sync_of_consumed_range(
    ro: RoState,
    before: RwView,
    cursor: SyncCursor,
    latest: u64,
    after: RwView,
    next: SyncCursor,
    action: SyncAction,
)
    requires
        cursor.phase == SyncPhase::Latest,
        latest <= before.last_sync_block,
        sync_step(ro, before, cursor, SyncEvent::Latest(latest), after, next, action),
    ensures
        after == before,
        action == SyncAction::Done,
{
}

/// A range without logs changes neither the heads nor the queue. If it is the
/// last range of the run, the run is over and `last_sync_block` is `latest`;
/// if not, the next range is asked for.
pub proof fn law_sync_of_empty_range(
    ro: RoState,
    before: RwView,
    cursor: SyncCursor,
    logs: Vec<Log>,
    after: RwView,
    next: SyncCursor,
    action: SyncAction,
)
    requires
        cursor.phase == SyncPhase::Logs,
        logs@.len() == 0,
        before.last_sync_block < cursor.latest,
        sync_step(ro, before, cursor, SyncEvent::Logs(logs), after, next, action),
    ensures
        after.chain == before.chain,
        after.queue == before.queue,
        cursor.to >= cursor.latest ==> after.last_sync_block == cursor.latest && action
            == SyncAction::Done,
        cursor.to < cursor.latest ==> after == before && action is FetchLogs,
{
}

/// The calldata of a transaction of the submit step carries the header that
/// was submitted, so that the hash which the sync step reads from it is the
/// Keccak-256 hash of that header.
pub proof fn law_submitted_header_is_hashed(ro: RoState, header_rlp: Seq<u8>, hash: H256)
    requires
        submit_block_len(header_rlp.len()) <= MAX_ENCODING,
    ensures
        payload_of(submit_transaction(ro, header_rlp).calldata) == Some(header_rlp),
        is_keccak_of(hash, payload_of(submit_transaction(ro, header_rlp).calldata)->0) <==> is_keccak_of(
            hash,
            header_rlp,
        ),
{
    lemma_submit_block_round_trip(ro.l1_bridge_abi.submit_block@, header_rlp);
}

/// The argument of a call of `submitBlock` decodes to the header that the
/// call was made from.
pub proof fn law_submit_call_decodes(selector: Seq<u8>, header_rlp: Seq<u8>)
    requires
        selector.len() == 4,
        submit_block_len(header_rlp.len()) <= MAX_ENCODING,
    ensures
        abi_decoding(seq![AbiKind::Bytes], submit_block_call(selector, header_rlp).skip(4)) == Some(
            seq![AbiItem { kind: AbiKind::Bytes, bytes: header_rlp }],
        ),
{
    let items = seq![AbiItem { kind: AbiKind::Bytes, bytes: header_rlp }];
    let data = abi_encoding(items);
    assert(submit_block_call(selector, header_rlp).skip(4) == data);
    assert(data.len() == submit_block_len(header_rlp.len())) by {
        crate::abi::lemma_encoding_len(items, 0);
        reveal_with_fuel(crate::abi::tails_len, 2);
    }
    lemma_decoding_of_encoding(items);
}

/// The proof that goes to the bridge is as long as the EVM proof and the
/// state proof together, and begins with the EVM proof.
pub proof fn law_proof_data(proofs: ProofsView)
    ensures
        proofs.proof_data().len() == proofs.evm_proof.len() + proofs.state_proof.len(),
        proofs.proof_data().take(proofs.evm_proof.len() as int) == proofs.evm_proof,
        proofs.proof_data().skip(proofs.evm_proof.len() as int) == proofs.state_proof,
{
}

/// While as many proofs are in the making as may be, no proof is asked for:
/// a block without a slot is passed over and the record stays as it is.
pub proof fn law_back_pressure(rw: RwView, number: u64)
    requires
        rw.pending_proofs >= MAX_PENDING_PROOFS,
        !rw.requests.contains_key(number),
    ensures
        verdict_of(rw, number) == Verdict::Busy,
        after_block(rw, number) == rw,
{
}

/// A block whose prover failed is asked for again: its slot is free, and so
/// is the prover.
pub proof fn law_failed_proof_is_retried(rw: RwView, number: u64)
    requires
        rw.wf(),
        rw.pending_slots().contains(number),
    ensures
        verdict_of(after_proof(rw, number, None), number) == Verdict::Request,
        after_proof(rw, number, None).pending_proofs == rw.pending_proofs - 1,
{
    vstd::set_lib::lemma_len_subset(rw.pending_slots(), rw.requests.dom());
}

/// Where the three heads are one, neither the submit step nor the finalize
/// step sends a transaction or asks a node for anything: each is over at
/// once, and the heads stay.
pub proof fn law_idle_tick(
    ro: RoState,
    rw: RwView,
    submit_cursor: SubmitCursor,
    submit_next: SubmitCursor,
    submit_action: SubmitAction,
    finalize_cursor: FinalizeCursor,
    after: RwView,
    finalize_next: FinalizeCursor,
    finalize_action: FinalizeAction,
)
    requires
        rw.chain.head == rw.chain.safe,
        rw.chain.safe == rw.chain.finalized,
        submit_cursor.phase == SubmitPhase::Start,
        finalize_cursor.phase == FinalizePhase::Start,
        submit_step(ro, rw, submit_cursor, SubmitEvent::Begin, submit_next, submit_action),
        finalize_step(
            ro,
            rw,
            finalize_cursor,
            FinalizeEvent::Begin,
            after,
            finalize_next,
            finalize_action,
        ),
    ensures
        submit_action is Done,
        finalize_action is Done,
        finalize_keeps(rw, after),
{
}

/// Where no transaction waits in the leader node's pool, the leader node is
/// not told to mine.
pub proof fn law_empty_pool_is_not_mined(
    ro: RoState,
    before: RwView,
    after: RwView,
    next: MinePhase,
    action: MineAction,
)
    requires
        mine_step(
            ro,
            before,
            MinePhase::Polling,
            MineEvent::TxpoolStatus { pending: 0 },
            after,
            next,
            action,
        ),
    ensures
        action is StopMiner,
        after == before,
{
}

/// The finalize step deals with the blocks from the oldest on: no block that
/// it passes over could have been dealt with.
pub proof fn law_finalize_order(rw: RwView, blocks: Seq<Block>, remaining: int)
    requires
        0 <= remaining <= blocks.len(),
    ensures
        0 <= next_active(rw, blocks, remaining) <= remaining,
        forall|i: int|
            next_active(rw, blocks, remaining) <= i < remaining ==> {
                let verdict = verdict_of(rw, (#[trigger] blocks[i]).number);
                verdict != Verdict::Request && verdict != Verdict::Finalize
            },
    decreases remaining,
{
    if remaining > 0 {
        match verdict_of(rw, blocks[remaining - 1].number) {
            Verdict::Request => {},
            Verdict::Finalize => {},
            _ => {
                law_finalize_order(rw, blocks, remaining - 1);
            },
        }
    }
}

/// When the finalize step has walked back to the finalized head, it holds no
/// more proof slots than there are blocks waiting to be finalized and proofs
/// allowed in the making, and no more proofs are in the making than allowed.
pub proof fn law_slots_are_bounded(
    ro: RoState,
    before: RwView,
    cursor: FinalizeCursor,
    block: Block,
    after: RwView,
    next: FinalizeCursor,
    action: FinalizeAction,
)
    requires
        before.wf(),
        cursor.phase == FinalizePhase::Walking,
        block.parent_hash == cursor.base,
        finalize_step(ro, before, cursor, FinalizeEvent::Block(block), after, next, action),
    ensures
        after.wf(),
        after.pending_proofs <= MAX_PENDING_PROOFS,
        slots_within(after, cursor.blocks@.push(block)),
        after.requests.dom().len() <= cursor.blocks@.push(block).len() + MAX_PENDING_PROOFS,
{
    let blocks = cursor.blocks@.push(block);
    let kept = discarded(before, blocks);
    lemma_discarded_within(before, blocks);
    law_finalize_order(kept, blocks, blocks.len() as int);
    let at = next_active(kept, blocks, blocks.len() as int);
    if at > 0 {
        let number = blocks[at - 1].number;
        lemma_block_within(kept, blocks, at - 1);
        if verdict_of(kept, number) == Verdict::Request {
            lemma_pending_inserted(kept, number);
        }
    }
    lemma_slots_bound(after, blocks);
}

/// When no block waits to be finalized, the finalize step keeps no proof but
/// those in the making.
pub proof fn law_no_slots_when_nothing_waits(
    ro: RoState,
    before: RwView,
    cursor: FinalizeCursor,
    after: RwView,
    next: FinalizeCursor,
    action: FinalizeAction,
)
    requires
        before.wf(),
        cursor.phase == FinalizePhase::Start,
        before.chain.finalized == before.chain.safe,
        finalize_step(ro, before, cursor, FinalizeEvent::Begin, after, next, action),
    ensures
        after.wf(),
        after.requests.dom() == after.pending_slots(),
        after.requests.dom().len() <= MAX_PENDING_PROOFS,
{
    lemma_discarded_within(before, Seq::empty());
    lemma_slots_bound(after, Seq::empty());
}

/// The items of a call of `finalizeBlock`.
pub open spec fn finalize_items(block_hash: Seq<u8>, witness: Seq<u8>, proof: Seq<u8>) -> Seq<AbiItem> {
    seq![
        AbiItem { kind: AbiKind::Word, bytes: block_hash },
        AbiItem { kind: AbiKind::Bytes, bytes: witness },
        AbiItem { kind: AbiKind::Bytes, bytes: proof },
    ]
}

/// The arguments of a call of `finalizeBlock` decode to the block's hash, the
/// witness and the proof that the call was made from.
pub proof fn law_finalize_call_decodes(
    selector: Seq<u8>,
    block_hash: Seq<u8>,
    witness: Seq<u8>,
    proof: Seq<u8>,
)
    requires
        selector.len() == 4,
        block_hash.len() == 32,
        finalize_block_len(witness.len(), proof.len()) <= MAX_ENCODING,
    ensures
        abi_decoding(
            seq![AbiKind::Word, AbiKind::Bytes, AbiKind::Bytes],
            finalize_block_call(selector, block_hash, witness, proof).skip(4),
        ) == Some(finalize_items(block_hash, witness, proof)),
{
    let items = finalize_items(block_hash, witness, proof);
    let data = abi_encoding(items);
    let call = finalize_block_call(selector, block_hash, witness, proof);
    assert(call.skip(4) == data);
    assert(crate::abi::kinds_of(items) == seq![AbiKind::Word, AbiKind::Bytes, AbiKind::Bytes]);
    assert(data.len() == finalize_block_len(witness.len(), proof.len())) by {
        crate::abi::lemma_encoding_len(items, 0);
        reveal_with_fuel(crate::abi::tails_len, 4);
    }
    lemma_decoding_of_encoding(items);
}

/// The items of the data of an `L1MessageSent` log.
pub open spec fn message_items(
    from: Seq<u8>,
    to: Seq<u8>,
    value: Seq<u8>,
    fee: Seq<u8>,
    calldata: Seq<u8>,
) -> Seq<AbiItem> {
    seq![
        AbiItem { kind: AbiKind::Address, bytes: from },
        AbiItem { kind: AbiKind::Address, bytes: to },
        AbiItem { kind: AbiKind::Uint, bytes: value },
        AbiItem { kind: AbiKind::Uint, bytes: fee },
        AbiItem { kind: AbiKind::Bytes, bytes: calldata },
    ]
}

/// The data of an `L1MessageSent` log that encodes a message decodes to that
/// message, with the timestamp zero.
pub proof fn law_message_decodes(from: Seq<u8>, to: Seq<u8>, value: Seq<u8>, fee: Seq<u8>, calldata: Seq<u8>)
    requires
        from.len() == 20,
        to.len() == 20,
        value.len() == 32,
        fee.len() == 32,
        abi_encoding(message_items(from, to, value, fee, calldata)).len() <= MAX_ENCODING,
    ensures
        message_of(abi_encoding(message_items(from, to, value, fee, calldata))) == Some(
            BeaconView { from, to, value, fee, calldata, timestamp: 0 },
        ),
{
    let items = message_items(from, to, value, fee, calldata);
    assert(crate::abi::kinds_of(items) == message_kinds());
    lemma_decoding_of_encoding(items);
}

/// No move of the finalize step breaks the record: the counter goes on
/// counting the proofs in the making, and they stay no more than allowed.
pub proof fn law_finalize_keeps(
    ro: RoState,
    before: RwView,
    cursor: FinalizeCursor,
    event: FinalizeEvent,
    after: RwView,
    next: FinalizeCursor,
    action: FinalizeAction,
)
    requires
        before.wf(),
        finalize_step(ro, before, cursor, event, after, next, action),
    ensures
        after.wf(),
        finalize_keeps(before, after),
{
    let blocks = match (cursor.phase, event) {
        (FinalizePhase::Start, FinalizeEvent::Begin) => Seq::<Block>::empty(),
        (FinalizePhase::Walking, FinalizeEvent::Block(block)) => cursor.blocks@.push(block),
        _ => cursor.blocks@,
    };
    let remaining = match (cursor.phase, event) {
        (FinalizePhase::Walking, FinalizeEvent::Block(_)) => blocks.len() as int,
        _ => if cursor.remaining <= blocks.len() {
            cursor.remaining as int
        } else {
            0
        },
    };
    let kept = match (cursor.phase, event) {
        (FinalizePhase::Start, FinalizeEvent::Begin) => discarded(before, blocks),
        (FinalizePhase::Walking, FinalizeEvent::Block(_)) => discarded(before, blocks),
        _ => before,
    };
    lemma_discarded_within(before, blocks);
    law_finalize_order(kept, blocks, remaining);
    let at = next_active(kept, blocks, remaining);
    if at > 0 && verdict_of(kept, blocks[at - 1].number) == Verdict::Request {
        lemma_pending_inserted(kept, blocks[at - 1].number);
    }
}

/// What can happen to the record while the coordinator runs: a move of one
/// of the steps, the end of a prover's run, the dropping of settled proofs, or
/// the setting of the genesis block. The submit step does not change the
/// record.
pub open spec fn moved(ro: RoState, before: RwView, after: RwView) -> bool {
    ||| exists|cursor: SyncCursor, event: SyncEvent, next: SyncCursor, action: SyncAction|
        sync_step(ro, before, cursor, event, after, next, action)
    ||| exists|phase: MinePhase, event: MineEvent, next: MinePhase, action: MineAction|
        mine_step(ro, before, phase, event, after, next, action)
    ||| exists|cursor: FinalizeCursor, event: FinalizeEvent, next: FinalizeCursor, action: FinalizeAction|
        finalize_step(ro, before, cursor, event, after, next, action)
    ||| exists|number: u64, proofs: Option<ProofsView>| after == after_proof(before, number, proofs)
    ||| exists|blocks: Seq<Block>| after == discarded(before, blocks)
    ||| exists|genesis: Seq<u8>|
        after == (RwView {
            chain: ChainView { head: genesis, safe: genesis, finalized: genesis },
            ..before
        })
}

/// Whatever happens, `last_sync_block` does not move back, the counter goes
/// on counting the proofs in the making, and they stay no more than allowed.
pub proof fn law_invariants(ro: RoState, before: RwView, after: RwView)
    requires
        before.wf(),
        moved(ro, before, after),
    ensures
        after.wf(),
        after.pending_proofs <= MAX_PENDING_PROOFS,
        after.last_sync_block >= before.last_sync_block,
{
    if exists|cursor: SyncCursor, event: SyncEvent, next: SyncCursor, action: SyncAction|
        sync_step(ro, before, cursor, event, after, next, action) {
        let (cursor, event, next, action) = choose|
            cursor: SyncCursor,
            event: SyncEvent,
            next: SyncCursor,
            action: SyncAction,
        | sync_step(ro, before, cursor, event, after, next, action);
        law_sync_keeps(ro, before, cursor, event, after, next, action);
    } else if exists|phase: MinePhase, event: MineEvent, next: MinePhase, action: MineAction|
        mine_step(ro, before, phase, event, after, next, action) {
        let (phase, event, next, action) = choose|
            phase: MinePhase,
            event: MineEvent,
            next: MinePhase,
            action: MineAction,
        | mine_step(ro, before, phase, event, after, next, action);
        law_mine_keeps(ro, before, phase, event, after, next, action);
    } else if exists|
        cursor: FinalizeCursor,
        event: FinalizeEvent,
        next: FinalizeCursor,
        action: FinalizeAction,
    | finalize_step(ro, before, cursor, event, after, next, action) {
        let (cursor, event, next, action) = choose|
            cursor: FinalizeCursor,
            event: FinalizeEvent,
            next: FinalizeCursor,
            action: FinalizeAction,
        | finalize_step(ro, before, cursor, event, after, next, action);
        law_finalize_keeps(ro, before, cursor, event, after, next, action);
    } else if exists|number: u64, proofs: Option<ProofsView>| after == after_proof(before, number, proofs) {
        let (number, proofs) = choose|number: u64, proofs: Option<ProofsView>|
            after == after_proof(before, number, proofs);
        if before.pending_slots().contains(number) {
            lemma_pending_removed(before, after, number);
        }
    } else if exists|blocks: Seq<Block>| after == discarded(before, blocks) {
        let blocks = choose|blocks: Seq<Block>| after == discarded(before, blocks);
        lemma_discarded_within(before, blocks);
    }
}

} // verus!

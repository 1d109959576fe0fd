//! The finalize step: for each block that was submitted and is not finalized
//! yet, from the oldest on, a proof is asked for, awaited, or sent to the
//! bridge.
//!
//! A block's proof goes from absent to pending when it is asked for, from
//! pending to ready when the prover succeeds, and back to absent when the
//! prover fails, so that it is asked for again.

use std::collections::HashMap;
use vstd::prelude::*;
use crate::abi::{encode, AbiValue, MAX_ENCODING};
use crate::bridge::{finalize_block_call, finalize_block_len};
use crate::primitives::{zeros, H256, U256};
use crate::rpc::{is_call, Node, RpcCall, ETH_GET_BLOCK_BY_HASH};
use crate::shared_state::{l1_transaction, RoState, RwView, SharedState, MAX_PENDING_PROOFS};
use crate::structs::{Block, Proofs, ProofsView, TransactionRequest, TransactionView};
use crate::transact::TransactOutcome;

verus! {

/// What the step does about one block.
#[derive(Clone, Copy, Debug, PartialEq, Eq)]
pub enum Verdict {
    /// No proof was asked for and the prover is free: ask for one.
    Request,
    /// No proof was asked for, but as many proofs are in the making as may be.
    Busy,
    /// The proof is in the making.
    Pending,
    /// The proof is there: send it to the bridge.
    Finalize,
    /// The proof is there, but it is longer than a call can carry.
    TooLarge,
}

/// What the step does about the block of the given number.
pub open spec fn verdict_of(rw: RwView, number: u64) -> Verdict {
    if !rw.requests.contains_key(number) {
        if rw.pending_proofs >= MAX_PENDING_PROOFS {
            Verdict::Busy
        } else {
            Verdict::Request
        }
    } else {
        match rw.requests[number] {
            None => Verdict::Pending,
            Some(proofs) => if finalize_block_len(32, proofs.proof_data().len()) <= MAX_ENCODING {
                Verdict::Finalize
            } else {
                Verdict::TooLarge
            },
        }
    }
}

/// The record after the step has dealt with the block of the given number:
/// where a proof is asked for, the block's slot is pending and the counter is
/// one higher; otherwise nothing has changed.
pub open spec fn after_block(rw: RwView, number: u64) -> RwView {
    if verdict_of(rw, number) == Verdict::Request {
        RwView {
            requests: rw.requests.insert(number, None),
            pending_proofs: (rw.pending_proofs + 1) as u32,
            ..rw
        }
    } else {
        rw
    }
}

/// The transaction that finalizes a block: a call of the bridge's
/// `finalizeBlock` with the block's hash, the hash again as the witness, and
/// the EVM proof followed by the state proof; it carries no value.
pub open spec fn finalize_transaction(ro: RoState, block: Block, proofs: ProofsView) -> TransactionView {
    l1_transaction(
        ro,
        ro.l1_bridge_addr@,
        zeros(32),
        finalize_block_call(ro.l1_bridge_abi.finalize_block@, block.hash@, block.hash@, proofs.proof_data()),
    )
}

/// What the caller does about one block.
#[derive(Clone, Debug, PartialEq, Eq)]
pub enum FinalizeOutcome {
    /// Start the prover for this block, and report how it ended with
    /// `complete_proof`.
    RequestProof { block_num: u64 },
    /// Nothing: as many proofs are in the making as may be.
    Busy,
    /// Nothing: the block's proof is in the making.
    Pending,
    /// Send this transaction to the settlement chain.
    Finalize(TransactionRequest),
    /// Nothing: the proof is longer than a call can carry.
    TooLarge,
}

impl FinalizeOutcome {
    /// Whether this is what the step does about `block` in the state `rw`.
    pub open spec fn matches_verdict(self, ro: RoState, rw: RwView, block: Block) -> bool {
        match verdict_of(rw, block.number) {
            Verdict::Request => self == (FinalizeOutcome::RequestProof { block_num: block.number }),
            Verdict::Busy => self is Busy,
            Verdict::Pending => self is Pending,
            Verdict::Finalize => self matches FinalizeOutcome::Finalize(request) && request@
                == finalize_transaction(ro, block, rw.requests[block.number]->0),
            Verdict::TooLarge => self is TooLarge,
        }
    }
}

/// The witness of a block: its hash as the ABI encodes it, which is the hash
/// itself.
fn witness_of(hash: H256) -> (witness: Vec<u8>)
    ensures
        witness@ == hash@,
{
    let values = vec![AbiValue::Word(hash)];
    proof {
        reveal_with_fuel(crate::abi::tails, 2);
        reveal_with_fuel(crate::abi::heads, 2);
    }
    match encode(&values) {
        Some(witness) => witness,
        None => Vec::new(),
    }
}

impl SharedState {
    /// Deals with one block that waits to be finalized.
    ///
    /// Where no proof was asked for yet and fewer than `MAX_PENDING_PROOFS` are
    /// in the making, the block's slot becomes pending and the counter goes
    /// up; in every other case the record stays as it is.
    pub fn finalize_block(&mut self, block: &Block) -> (outcome: FinalizeOutcome)
        ensures
            final(self).ro == old(self).ro,
            final(self).rw@ == after_block(old(self).rw@, block.number),
            outcome.matches_verdict(old(self).ro, old(self).rw@, *block),
            old(self).rw@.wf() ==> final(self).rw@.wf(),
    {
        broadcast use vstd::std_specs::hash::group_hash_axioms;

        let k = block.number;
        let ghost before = self.rw@;
        match self.rw.prover_requests.get(&k) {
            None => {
                if self.rw.pending_proofs >= MAX_PENDING_PROOFS {
                    return FinalizeOutcome::Busy;
                }
                self.rw.prover_requests.insert(k, None);
                self.rw.pending_proofs += 1;
                proof {
                    assert(self.rw@.requests =~= before.requests.insert(k, None));
                    if before.wf() {
                        lemma_pending_inserted(before, k);
                    }
                }
                FinalizeOutcome::RequestProof { block_num: k }
            },
            Some(None) => FinalizeOutcome::Pending,
            Some(Some(proofs)) => {
                let proof_data = proofs.proof_data();
                let witness = witness_of(block.hash);
                match self.ro.l1_bridge_abi.encode_finalize_block(block.hash, witness, proof_data) {
                    None => FinalizeOutcome::TooLarge,
                    Some(calldata) => FinalizeOutcome::Finalize(
                        self.transaction_to_l1(self.ro.l1_bridge_addr, U256::zero(), calldata),
                    ),
                }
            },
        }
    }

    /// Takes note of how the prover ended for a block: with a proof, which is
    /// then ready, or without, and the block's slot is then free again. Either
    /// way one proof fewer is in the making.
    ///
    /// Returns whether the block's proof was pending; if it was not, nothing
    /// changes.
    pub fn complete_proof(&mut self, block_num: u64, result: Result<Proofs, String>) -> (noted: bool)
        ensures
            final(self).ro == old(self).ro,
            noted == old(self).rw@.pending_slots().contains(block_num),
            final(self).rw@ == after_proof(old(self).rw@, block_num, result_view(result)),
            old(self).rw@.wf() ==> final(self).rw@.wf(),
    {
        broadcast use vstd::std_specs::hash::group_hash_axioms;

        let ghost before = self.rw@;
        match self.rw.prover_requests.get(&block_num) {
            Some(None) => {},
            _ => {
                return false;
            },
        }
        if self.rw.pending_proofs > 0 {
            self.rw.pending_proofs -= 1;
        }
        match result {
            Ok(proofs) => {
                self.rw.prover_requests.insert(block_num, Some(proofs));
                proof {
                    assert(self.rw@.requests =~= before.requests.insert(block_num, Some(proofs@)));
                }
            },
            Err(_) => {
                self.rw.prover_requests.remove(&block_num);
                proof {
                    assert(self.rw@.requests =~= before.requests.remove(block_num));
                }
            },
        }
        proof {
            if before.wf() {
                lemma_pending_removed(before, self.rw@, block_num);
            }
        }
        true
    }
}

/// The proof that a prover's result holds, if it holds one.
pub open spec fn result_view(result: Result<Proofs, String>) -> Option<ProofsView> {
    match result {
        Ok(proofs) => Some(proofs@),
        Err(_) => None,
    }
}

/// The record after the prover has ended for the block of the given number,
/// with a proof or without.
pub open spec fn after_proof(rw: RwView, number: u64, proofs: Option<ProofsView>) -> RwView {
    if rw.pending_slots().contains(number) {
        RwView {
            requests: match proofs {
                Some(p) => rw.requests.insert(number, Some(p)),
                None => rw.requests.remove(number),
            },
            pending_proofs: if rw.pending_proofs > 0 {
                (rw.pending_proofs - 1) as u32
            } else {
                0
            },
            ..rw
        }
    } else {
        rw
    }
}

/// A new pending slot is one more proof in the making.
pub proof fn lemma_pending_inserted(rw: RwView, number: u64)
    requires
        rw.wf(),
        !rw.requests.contains_key(number),
        rw.pending_proofs < MAX_PENDING_PROOFS,
    ensures
        after_block(rw, number).wf(),
{
    let after = after_block(rw, number);
    vstd::set_lib::lemma_len_subset(rw.pending_slots(), rw.requests.dom());
    assert(after.pending_slots() =~= rw.pending_slots().insert(number));
}

/// A pending slot that is filled or freed is one proof fewer in the making.
pub proof fn lemma_pending_removed(rw: RwView, after: RwView, number: u64)
    requires
        rw.wf(),
        rw.pending_slots().contains(number),
        after.requests == rw.requests.remove(number) || exists|p: ProofsView|
            after.requests == rw.requests.insert(number, Some(p)),
        after.pending_proofs == if rw.pending_proofs > 0 {
            (rw.pending_proofs - 1) as u32
        } else {
            0
        },
    ensures
        after.wf(),
        rw.pending_proofs > 0,
{
    vstd::set_lib::lemma_len_subset(rw.pending_slots(), rw.requests.dom());
    assert(after.pending_slots() =~= rw.pending_slots().remove(number));
}

/// The numbers of the given blocks.
pub open spec fn block_numbers(blocks: Seq<Block>) -> Set<u64> {
    Set::new(|k: u64| exists|i: int| 0 <= i < blocks.len() && (#[trigger] blocks[i]).number == k)
}

/// The slots that are kept when the given blocks are those that wait to be
/// finalized: the pending ones, and those of the given blocks.
pub open spec fn kept_slots(rw: RwView, blocks: Seq<Block>) -> Set<u64> {
    Set::new(
        |k: u64|
            rw.requests.contains_key(k) && (rw.requests[k] is None || block_numbers(blocks).contains(
                k,
            )),
    )
}

/// The record without the proofs that are no longer needed: the ready proofs
/// of blocks other than the given ones.
pub open spec fn discarded(rw: RwView, blocks: Seq<Block>) -> RwView {
    RwView { requests: rw.requests.restrict(kept_slots(rw, blocks)), ..rw }
}

/// Whether one of the blocks has the number `k`.
fn has_number(blocks: &Vec<Block>, k: u64) -> (found: bool)
    ensures
        found == block_numbers(blocks@).contains(k),
{
    let mut i: usize = 0;
    while i < blocks.len()
        invariant
            i <= blocks@.len(),
            forall|j: int| 0 <= j < i ==> (#[trigger] blocks@[j]).number != k,
        decreases blocks@.len() - i,
    {
        if blocks[i].number == k {
            return true;
        }
        i += 1;
    }
    false
}

/// Whether the slot of `k` holds a proof of a block other than the given ones.
pub open spec fn settled(requests: Map<u64, Option<Proofs>>, blocks: Seq<Block>, k: u64) -> bool {
    requests.contains_key(k) && requests[k] is Some && !block_numbers(blocks).contains(k)
}

/// The keys of the settled slots.
fn settled_keys(requests: &HashMap<u64, Option<Proofs>>, blocks: &Vec<Block>) -> (keys: Vec<u64>)
    ensures
        forall|k: u64| keys@.contains(k) <==> settled(requests@, blocks@, k),
{
    broadcast use vstd::std_specs::hash::group_hash_axioms;

    let mut keys: Vec<u64> = Vec::new();
    for k in it: requests.keys()
        invariant
            it.seq().unref().to_set() == requests@.dom(),
            forall|x: u64|
                requests@.contains_key(x) ==> exists|j: int|
                    0 <= j < it.seq().len() && *(#[trigger] it.seq()[j]) == x,
            forall|x: u64| keys@.contains(x) ==> settled(requests@, blocks@, x),
            forall|j: int|
                0 <= j < it.index() && settled(requests@, blocks@, *(#[trigger] it.seq()[j]))
                    ==> keys@.contains(*it.seq()[j]),
    {
        let ghost before = keys@;
        let ready = match requests.get(k) {
            Some(Some(_)) => true,
            _ => false,
        };
        if ready && !has_number(blocks, *k) {
            keys.push(*k);
            assert(keys@.last() == *k);
            assert forall|x: u64| before.contains(x) implies keys@.contains(x) by {
                let j = choose|j: int| 0 <= j < before.len() && before[j] == x;
                assert(keys@[j] == x);
            }
            assert forall|x: u64| keys@.contains(x) implies settled(requests@, blocks@, x) by {
                let j = choose|j: int| 0 <= j < keys@.len() && keys@[j] == x;
                if j < before.len() {
                    assert(before.contains(x));
                }
            }
        }
    }
    keys
}

impl SharedState {
    /// Drops the proofs that are no longer needed, given the blocks that wait
    /// to be finalized: a ready proof of any other block goes. Pending slots
    /// stay, whatever their block, since their provers are still at work.
    ///
    /// After this no more slots are left than there are blocks given and
    /// proofs in the making.
    pub fn discard_settled(&mut self, blocks: &Vec<Block>)
        ensures
            final(self).ro == old(self).ro,
            final(self).rw@ == discarded(old(self).rw@, blocks@),
            old(self).rw@.wf() ==> final(self).rw@.wf(),
            slots_within(final(self).rw@, blocks@),
            old(self).rw@.wf() ==> final(self).rw@.requests.dom().len() <= blocks@.len()
                + MAX_PENDING_PROOFS,
    {
        broadcast use vstd::std_specs::hash::group_hash_axioms;

        let ghost before = self.rw@;
        let ghost requests = self.rw.prover_requests@;
        let keys = settled_keys(&self.rw.prover_requests, blocks);
        let mut i: usize = 0;
        while i < keys.len()
            invariant
                i <= keys@.len(),
                self.ro == old(self).ro,
                self.rw.chain_state == old(self).rw.chain_state,
                self.rw.nodes == old(self).rw.nodes,
                self.rw.pending_proofs == old(self).rw.pending_proofs,
                self.rw.last_sync_block == old(self).rw.last_sync_block,
                self.rw.l1_message_queue == old(self).rw.l1_message_queue,
                forall|k: u64|
                    self.rw.prover_requests@.contains_key(k) <==> (requests.contains_key(k) && !keys@.take(
                        i as int,
                    ).contains(k)),
                forall|k: u64|
                    self.rw.prover_requests@.contains_key(k) ==> self.rw.prover_requests@[k]
                        == requests[k],
            decreases keys@.len() - i,
        {
            let k = keys[i];
            let ghost shorter = keys@.take(i as int);
            let ghost longer = keys@.take(i + 1);
            self.rw.prover_requests.remove(&k);
            proof {
                assert forall|x: u64| longer.contains(x) == (shorter.contains(x) || x == k) by {
                    if x == k {
                        assert(longer[i as int] == x);
                    }
                }
            }
            i += 1;
            assert forall|x: u64|
                self.rw.prover_requests@.contains_key(x) == (requests.contains_key(x) && !longer.contains(
                    x,
                )) by {}
        }
        proof {
            assert(keys@.take(keys@.len() as int) =~= keys@);
            let kept = kept_slots(before, blocks@);
            let now = self.rw@.requests;
            assert(now =~= before.requests.restrict(kept));
            lemma_discarded_within(before, blocks@);
            if before.wf() {
                lemma_slots_bound(discarded(before, blocks@), blocks@);
            }
        }
    }
}

/// Every slot is pending or belongs to one of the given blocks.
pub open spec fn slots_within(rw: RwView, blocks: Seq<Block>) -> bool {
    forall|k: u64| #[trigger]
        rw.requests.contains_key(k) ==> rw.requests[k] is None || block_numbers(blocks).contains(k)
}

/// Dropping settled proofs keeps the record well-formed and leaves only
/// slots that are pending or belong to one of the given blocks.
pub proof fn lemma_discarded_within(rw: RwView, blocks: Seq<Block>)
    ensures
        slots_within(discarded(rw, blocks), blocks),
        rw.wf() ==> discarded(rw, blocks).wf(),
{
    let after = discarded(rw, blocks);
    if rw.wf() {
        vstd::set_lib::lemma_len_subset(after.requests.dom(), rw.requests.dom());
        assert(after.pending_slots() =~= rw.pending_slots());
    }
}

/// Where every slot is pending or belongs to one of the given blocks, there
/// are no more slots than blocks given and proofs allowed in the making.
pub proof fn lemma_slots_bound(rw: RwView, blocks: Seq<Block>)
    requires
        rw.wf(),
        slots_within(rw, blocks),
    ensures
        rw.requests.dom().len() <= blocks.len() + rw.pending_proofs,
        rw.requests.dom().len() <= blocks.len() + MAX_PENDING_PROOFS,
{
    let numbers = blocks.map_values(|b: Block| b.number);
    vstd::set_lib::lemma_len_subset(rw.pending_slots(), rw.requests.dom());
    assert(block_numbers(blocks) =~= numbers.to_set()) by {
        assert forall|k: u64| block_numbers(blocks).contains(k) implies numbers.to_set().contains(k) by {
            let i = choose|i: int| 0 <= i < blocks.len() && (#[trigger] blocks[i]).number == k;
            assert(numbers[i] == k);
        }
        assert forall|k: u64| numbers.to_set().contains(k) implies block_numbers(blocks).contains(k) by {
            let i = choose|i: int| 0 <= i < numbers.len() && numbers[i] == k;
            assert(blocks[i].number == k);
        }
    }
    numbers.lemma_cardinality_of_set();
    let both = rw.pending_slots() + numbers.to_set();
    vstd::set_lib::lemma_len_union(rw.pending_slots(), numbers.to_set());
    vstd::set_lib::lemma_len_subset(rw.requests.dom(), both);
}

/// Dealing with one of the given blocks leaves every slot pending or with
/// one of them.
pub proof fn lemma_block_within(rw: RwView, blocks: Seq<Block>, i: int)
    requires
        slots_within(rw, blocks),
        0 <= i < blocks.len(),
    ensures
        slots_within(after_block(rw, blocks[i].number), blocks),
{
}

/// What the caller of the finalize step does next.
#[derive(Clone, Debug, PartialEq, Eq)]
pub enum FinalizeAction {
    /// Ask the leader node for the block of this hash.
    FetchBlock { hash: H256 },
    /// Start the prover for this block in the background, and report how it
    /// ended with `complete_proof`. The step goes on at once.
    RequestProof { block_num: u64 },
    /// Send this transaction to the settlement chain.
    SendTransaction(TransactionRequest),
    /// The step is over.
    Done,
}

impl FinalizeAction {
    /// The call that the action stands for. Blocks are asked of the leader
    /// node.
    pub fn rpc(&self) -> (call: Option<RpcCall>)
        ensures
            match self {
                FinalizeAction::FetchBlock { .. } => is_call(call, Node::Leader, ETH_GET_BLOCK_BY_HASH, None),
                _ => call is None,
            },
    {
        match self {
            FinalizeAction::FetchBlock { .. } => Some(
                RpcCall { node: Node::Leader, method: ETH_GET_BLOCK_BY_HASH, timeout_ms: None },
            ),
            _ => None,
        }
    }
}

/// What the caller of the finalize step reports.
#[derive(Clone, Debug, PartialEq, Eq)]
pub enum FinalizeEvent {
    /// The step begins.
    Begin,
    /// The block asked for.
    Block(Block),
    /// The prover was started.
    Acknowledged,
    /// The sending of the transaction is over, and this came of it.
    Sent(TransactOutcome),
    /// The call failed or ran out of time.
    Failed,
}

/// What the finalize step waits for.
#[derive(Clone, Copy, Debug, PartialEq, Eq)]
pub enum FinalizePhase {
    /// Its beginning.
    Start,
    /// A block on the way back from the safe head to the finalized one.
    Walking,
    /// Word that the last action was performed.
    Blocks,
    /// Nothing: the step is over.
    Finished,
}

/// How far one run of the finalize step has come.
#[derive(Clone, Debug, PartialEq, Eq)]
pub struct FinalizeCursor {
    pub phase: FinalizePhase,
    /// The finalized head when the run began.
    pub base: H256,
    /// The blocks that wait to be finalized, the newest first.
    pub blocks: Vec<Block>,
    /// The number of blocks that are still to be dealt with: the oldest of
    /// them is next.
    pub remaining: usize,
}

impl FinalizeCursor {
    /// The cursor of a run that is about to begin: it waits for the
    /// beginning, holds no blocks, and its base is not set.
    pub fn new() -> (cursor: FinalizeCursor)
        ensures
            cursor.phase == FinalizePhase::Start,
            cursor.base@ == zeros(32),
            cursor.blocks@ == Seq::<Block>::empty(),
            cursor.remaining == 0,
    {
        FinalizeCursor { phase: FinalizePhase::Start, base: H256::zero(), blocks: Vec::new(), remaining: 0 }
    }
}

/// Among the first `remaining` blocks, the last one about which something is
/// to be done, counted from one; zero if there is none.
pub open spec fn next_active(rw: RwView, blocks: Seq<Block>, remaining: int) -> int
    decreases remaining,
{
    if remaining <= 0 {
        0
    } else {
        match verdict_of(rw, blocks[remaining - 1].number) {
            Verdict::Request => remaining,
            Verdict::Finalize => remaining,
            _ => next_active(rw, blocks, remaining - 1),
        }
    }
}

/// What holds when the blocks are taken up with `remaining` of them to go:
/// the blocks for which nothing can be done now are passed over, and the
/// first one for which a proof is to be asked for or sent is dealt with. If
/// there is none, the run is over.
pub open spec fn proceeded(
    ro: RoState,
    before: RwView,
    base: H256,
    blocks: Seq<Block>,
    remaining: int,
    after: RwView,
    next: FinalizeCursor,
    action: FinalizeAction,
) -> bool {
    let at = next_active(before, blocks, remaining);
    if at == 0 {
        &&& after == before
        &&& next.phase == FinalizePhase::Finished
        &&& action is Done
    } else {
        let block = blocks[at - 1];
        &&& after == after_block(before, block.number)
        &&& next.phase == FinalizePhase::Blocks
        &&& next.base == base
        &&& next.blocks@ == blocks
        &&& next.remaining == at - 1
        &&& match verdict_of(before, block.number) {
            Verdict::Request => action == (FinalizeAction::RequestProof { block_num: block.number }),
            _ => action matches FinalizeAction::SendTransaction(request) && request@
                == finalize_transaction(ro, block, before.requests[block.number]->0),
        }
    }
}

/// The run ends where it is, after a failure or an event that the phase does
/// not wait for.
pub open spec fn finalize_aborted(
    before: RwView,
    after: RwView,
    next: FinalizeCursor,
    action: FinalizeAction,
) -> bool {
    &&& after == before
    &&& next.phase == FinalizePhase::Finished
    &&& action is Done
}

/// One move of the finalize step.
pub open spec fn finalize_step(
    ro: RoState,
    before: RwView,
    cursor: FinalizeCursor,
    event: FinalizeEvent,
    after: RwView,
    next: FinalizeCursor,
    action: FinalizeAction,
) -> bool {
    match (cursor.phase, event) {
        (FinalizePhase::Start, FinalizeEvent::Begin) => if before.chain.finalized == before.chain.safe {
            // No block waits: every ready proof has done its work.
            &&& after == discarded(before, Seq::empty())
            &&& next.phase == FinalizePhase::Finished
            &&& action is Done
        } else {
            // Walk back from the safe head.
            &&& after == before
            &&& next.phase == FinalizePhase::Walking
            &&& next.base@ == before.chain.finalized
            &&& next.blocks@ == Seq::<Block>::empty()
            &&& action matches FinalizeAction::FetchBlock { hash } && hash@ == before.chain.safe
        },
        (FinalizePhase::Walking, FinalizeEvent::Block(block)) => {
            let blocks = cursor.blocks@.push(block);
            if block.parent_hash == cursor.base {
                // The walk has reached the finalized head: the oldest block
                // comes first.
                proceeded(
                    ro,
                    discarded(before, blocks),
                    cursor.base,
                    blocks,
                    blocks.len() as int,
                    after,
                    next,
                    action,
                )
            } else {
                &&& after == before
                &&& next.phase == FinalizePhase::Walking
                &&& next.base == cursor.base
                &&& next.blocks@ == blocks
                &&& action == (FinalizeAction::FetchBlock { hash: block.parent_hash })
            }
        },
        (FinalizePhase::Blocks, FinalizeEvent::Acknowledged) => finalize_resumed(
            ro,
            before,
            cursor,
            after,
            next,
            action,
        ),
        // Whatever came of the transaction, the run goes on.
        (FinalizePhase::Blocks, FinalizeEvent::Sent(_)) => finalize_resumed(
            ro,
            before,
            cursor,
            after,
            next,
            action,
        ),
        // A transaction that failed does not end the run.
        (FinalizePhase::Blocks, FinalizeEvent::Failed) => finalize_resumed(
            ro,
            before,
            cursor,
            after,
            next,
            action,
        ),
        _ => finalize_aborted(before, after, next, action),
    }
}

/// The run goes on with the blocks that are left.
pub open spec fn finalize_resumed(
    ro: RoState,
    before: RwView,
    cursor: FinalizeCursor,
    after: RwView,
    next: FinalizeCursor,
    action: FinalizeAction,
) -> bool {
    if cursor.remaining <= cursor.blocks@.len() {
        proceeded(ro, before, cursor.base, cursor.blocks@, cursor.remaining as int, after, next, action)
    } else {
        finalize_aborted(before, after, next, action)
    }
}

/// The slots stay within the blocks that wait to be finalized: once these
/// are known, every slot is pending or belongs to one of them, and it stays
/// so while the run goes on.
pub open spec fn slots_kept_within(
    before: RwView,
    cursor: FinalizeCursor,
    event: FinalizeEvent,
    after: RwView,
) -> bool {
    match (cursor.phase, event) {
        (FinalizePhase::Start, FinalizeEvent::Begin) => before.chain.finalized == before.chain.safe
            ==> slots_within(after, Seq::empty()),
        (FinalizePhase::Walking, FinalizeEvent::Block(block)) => block.parent_hash == cursor.base
            ==> slots_within(after, cursor.blocks@.push(block)),
        _ => slots_within(before, cursor.blocks@) ==> slots_within(after, cursor.blocks@),
    }
}

/// What the finalize step leaves alone: the three heads, the queue,
/// `last_sync_block` and the node list.
pub open spec fn finalize_keeps(before: RwView, after: RwView) -> bool {
    &&& after.chain == before.chain
    &&& after.queue == before.queue
    &&& after.last_sync_block == before.last_sync_block
    &&& after.nodes == before.nodes
}

impl SharedState {
    /// Goes on with the blocks that are left.
    fn proceed(&mut self, cursor: &mut FinalizeCursor) -> (action: FinalizeAction)
        requires
            old(cursor).remaining <= old(cursor).blocks@.len(),
        ensures
            final(self).ro == old(self).ro,
            proceeded(
                old(self).ro,
                old(self).rw@,
                old(cursor).base,
                old(cursor).blocks@,
                old(cursor).remaining as int,
                final(self).rw@,
                *final(cursor),
                action,
            ),
            finalize_keeps(old(self).rw@, final(self).rw@),
            old(self).rw@.wf() ==> final(self).rw@.wf(),
            slots_within(old(self).rw@, old(cursor).blocks@) ==> slots_within(
                final(self).rw@,
                old(cursor).blocks@,
            ),
    {
        let ghost before = self.rw@;
        let ghost blocks = cursor.blocks@;
        let ghost start = cursor.remaining as int;
        while cursor.remaining > 0
            invariant
                self.ro == old(self).ro,
                self.rw@ == before,
                before == old(self).rw@,
                blocks == old(cursor).blocks@,
                start == old(cursor).remaining,
                cursor.blocks@ == blocks,
                cursor.base == old(cursor).base,
                cursor.remaining <= blocks.len(),
                next_active(before, blocks, start) == next_active(before, blocks, cursor.remaining as int),
            decreases cursor.remaining,
        {
            cursor.remaining -= 1;
            let block = cursor.blocks[cursor.remaining];
            match self.finalize_block(&block) {
                FinalizeOutcome::RequestProof { block_num } => {
                    cursor.phase = FinalizePhase::Blocks;
                    proof {
                        if slots_within(before, blocks) {
                            lemma_block_within(before, blocks, cursor.remaining as int);
                        }
                    }
                    return FinalizeAction::RequestProof { block_num };
                },
                FinalizeOutcome::Finalize(request) => {
                    cursor.phase = FinalizePhase::Blocks;
                    return FinalizeAction::SendTransaction(request);
                },
                _ => {},
            }
        }
        cursor.phase = FinalizePhase::Finished;
        FinalizeAction::Done
    }

    /// One move of the finalize step. A run begins with a new cursor and the
    /// event `Begin`; it is over when the action is `Done`.
    ///
    /// Where the finalized head is the safe head there is nothing to do.
    /// Otherwise the blocks between the two are walked back from the safe
    /// head, and then dealt with one by one from the oldest on, as
    /// `finalize_block` says. Before that, the proofs that are no longer
    /// needed are dropped.
    pub fn finalize_blocks(&mut self, cursor: &mut FinalizeCursor, event: FinalizeEvent) -> (action:
        FinalizeAction)
        ensures
            final(self).ro == old(self).ro,
            finalize_step(
                old(self).ro,
                old(self).rw@,
                *old(cursor),
                event,
                final(self).rw@,
                *final(cursor),
                action,
            ),
            finalize_keeps(old(self).rw@, final(self).rw@),
            old(self).rw@.wf() ==> final(self).rw@.wf(),
            slots_kept_within(old(self).rw@, *old(cursor), event, final(self).rw@),
    {
        match (cursor.phase, event) {
            (FinalizePhase::Start, FinalizeEvent::Begin) => {
                let base = self.rw.chain_state.finalized_block_hash;
                let safe = self.rw.chain_state.safe_block_hash;
                if base.same(&safe) {
                    let none: Vec<Block> = Vec::new();
                    self.discard_settled(&none);
                    cursor.phase = FinalizePhase::Finished;
                    return FinalizeAction::Done;
                }
                cursor.phase = FinalizePhase::Walking;
                cursor.base = base;
                cursor.blocks = Vec::new();
                FinalizeAction::FetchBlock { hash: safe }
            },
            (FinalizePhase::Walking, FinalizeEvent::Block(block)) => {
                cursor.blocks.push(block);
                if block.parent_hash.same(&cursor.base) {
                    self.discard_settled(&cursor.blocks);
                    cursor.remaining = cursor.blocks.len();
                    self.proceed(cursor)
                } else {
                    FinalizeAction::FetchBlock { hash: block.parent_hash }
                }
            },
            (FinalizePhase::Blocks, FinalizeEvent::Acknowledged) => self.resume_blocks(cursor),
            (FinalizePhase::Blocks, FinalizeEvent::Sent(_)) => self.resume_blocks(cursor),
            (FinalizePhase::Blocks, FinalizeEvent::Failed) => self.resume_blocks(cursor),
            _ => {
                cursor.phase = FinalizePhase::Finished;
                FinalizeAction::Done
            },
        }
    }

    /// Goes on with the blocks that are left, if the cursor makes sense.
    fn resume_blocks(&mut self, cursor: &mut FinalizeCursor) -> (action: FinalizeAction)
        ensures
            final(self).ro == old(self).ro,
            finalize_resumed(
                old(self).ro,
                old(self).rw@,
                *old(cursor),
                final(self).rw@,
                *final(cursor),
                action,
            ),
            finalize_keeps(old(self).rw@, final(self).rw@),
            old(self).rw@.wf() ==> final(self).rw@.wf(),
            slots_within(old(self).rw@, old(cursor).blocks@) ==> slots_within(
                final(self).rw@,
                old(cursor).blocks@,
            ),
    {
        if cursor.remaining <= cursor.blocks.len() {
            self.proceed(cursor)
        } else {
            cursor.phase = FinalizePhase::Finished;
            FinalizeAction::Done
        }
    }
}

} // verus!

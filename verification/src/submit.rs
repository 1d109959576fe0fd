//! The submit step: the headers of the blocks above the safe head, up to the
//! head, are sent to the bridge, the oldest first.

use vstd::prelude::*;
use crate::abi::MAX_ENCODING;
use crate::bridge::{submit_block_call, submit_block_len};
use crate::primitives::{zeros, H256, U256};
use crate::rpc::{is_call, Node, RpcCall, DEBUG_GET_HEADER_RLP, ETH_GET_BLOCK_BY_HASH};
use crate::shared_state::{l1_transaction, RoState, RwView, SharedState};
use crate::structs::{Block, TransactionRequest, TransactionView};
use crate::transact::TransactOutcome;

verus! {

/// What the caller of the submit step does next.
#[derive(Clone, Debug, PartialEq, Eq)]
pub enum SubmitAction {
    /// Ask the leader node for the block of this hash.
    FetchBlock { hash: H256 },
    /// Ask the leader node for the header of this block, RLP-encoded.
    FetchHeaderRlp { number: u64 },
    /// Send this transaction to the settlement chain.
    SendTransaction(TransactionRequest),
    /// The step is over.
    Done,
}

impl SubmitAction {
    /// The call that the action stands for. Blocks and headers are asked of
    /// the leader node.
    pub fn rpc(&self) -> (call: Option<RpcCall>)
        ensures
            match self {
                SubmitAction::FetchBlock { .. } => is_call(call, Node::Leader, ETH_GET_BLOCK_BY_HASH, None),
                SubmitAction::FetchHeaderRlp { .. } => is_call(
                    call,
                    Node::Leader,
                    DEBUG_GET_HEADER_RLP,
                    None,
                ),
                SubmitAction::SendTransaction(_) => call is None,
                SubmitAction::Done => call is None,
            },
    {
        match self {
            SubmitAction::FetchBlock { .. } => Some(
                RpcCall { node: Node::Leader, method: ETH_GET_BLOCK_BY_HASH, timeout_ms: None },
            ),
            SubmitAction::FetchHeaderRlp { .. } => Some(
                RpcCall { node: Node::Leader, method: DEBUG_GET_HEADER_RLP, timeout_ms: None },
            ),
            _ => None,
        }
    }
}

/// What the caller of the submit step reports.
#[derive(Clone, Debug, PartialEq, Eq)]
pub enum SubmitEvent {
    /// The step begins.
    Begin,
    /// The block asked for.
    Block(Block),
    /// The header asked for.
    HeaderRlp(Vec<u8>),
    /// The sending of the transaction is over, and this came of it.
    Sent(TransactOutcome),
    /// The call failed or ran out of time.
    Failed,
}

/// What the submit step waits for.
#[derive(Clone, Copy, Debug, PartialEq, Eq)]
pub enum SubmitPhase {
    /// Its beginning.
    Start,
    /// A block on the way back from the head to the safe head.
    Walking,
    /// The header of the block at hand.
    Header,
    /// Word on the transaction that submits the block at hand.
    Sending,
    /// Nothing: the step is over.
    Finished,
}

/// How far one run of the submit step has come.
#[derive(Clone, Debug, PartialEq, Eq)]
pub struct SubmitCursor {
    pub phase: SubmitPhase,
    /// The safe head when the run began.
    pub base: H256,
    /// The blocks to submit, the newest first.
    pub blocks: Vec<Block>,
    /// The number of blocks that are not submitted yet, the one at hand
    /// not counted: the oldest of them is next.
    pub remaining: usize,
}

impl SubmitCursor {
    /// The cursor of a run that is about to begin: it waits for the
    /// beginning, holds no blocks, and its base is not set.
    pub fn new() -> (cursor: SubmitCursor)
        ensures
            cursor.phase == SubmitPhase::Start,
            cursor.base@ == zeros(32),
            cursor.blocks@ == Seq::<Block>::empty(),
            cursor.remaining == 0,
    {
        SubmitCursor { phase: SubmitPhase::Start, base: H256::zero(), blocks: Vec::new(), remaining: 0 }
    }
}

/// The transaction that submits a header: a call of the bridge's
/// `submitBlock` with the header; it carries no value.
pub open spec fn submit_transaction(ro: RoState, header_rlp: Seq<u8>) -> TransactionView {
    l1_transaction(
        ro,
        ro.l1_bridge_addr@,
        zeros(32),
        submit_block_call(ro.l1_bridge_abi.submit_block@, header_rlp),
    )
}

/// What holds when the run turns to the next block: with `remaining` blocks
/// to go, the header of the oldest of them is asked for; with none, the run
/// is over.
pub open spec fn turned(
    base: H256,
    blocks: Seq<Block>,
    remaining: int,
    next: SubmitCursor,
    action: SubmitAction,
) -> bool {
    if 0 < remaining <= blocks.len() {
        &&& next.phase == SubmitPhase::Header
        &&& next.base == base
        &&& next.blocks@ == blocks
        &&& next.remaining == remaining - 1
        &&& action == (SubmitAction::FetchHeaderRlp { number: blocks[remaining - 1].number })
    } else {
        &&& next.phase == SubmitPhase::Finished
        &&& action is Done
    }
}

/// One move of the submit step.
pub open spec fn submit_step(
    ro: RoState,
    rw: RwView,
    cursor: SubmitCursor,
    event: SubmitEvent,
    next: SubmitCursor,
    action: SubmitAction,
) -> bool {
    match (cursor.phase, event) {
        (SubmitPhase::Start, SubmitEvent::Begin) => if rw.chain.safe == rw.chain.head {
            // Every block is submitted.
            &&& next.phase == SubmitPhase::Finished
            &&& action is Done
        } else {
            // Walk back from the head.
            &&& next.phase == SubmitPhase::Walking
            &&& next.base@ == rw.chain.safe
            &&& next.blocks@ == Seq::<Block>::empty()
            &&& action matches SubmitAction::FetchBlock { hash } && hash@ == rw.chain.head
        },
        (SubmitPhase::Walking, SubmitEvent::Block(block)) => {
            let blocks = cursor.blocks@.push(block);
            if block.parent_hash == cursor.base {
                // The walk has reached the safe head: the oldest block comes
                // first.
                turned(cursor.base, blocks, blocks.len() as int, next, action)
            } else {
                &&& next.phase == SubmitPhase::Walking
                &&& next.base == cursor.base
                &&& next.blocks@ == blocks
                &&& action == (SubmitAction::FetchBlock { hash: block.parent_hash })
            }
        },
        (SubmitPhase::Header, SubmitEvent::HeaderRlp(header_rlp)) => if submit_block_len(header_rlp@.len())
            <= MAX_ENCODING {
            &&& next.phase == SubmitPhase::Sending
            &&& next.base == cursor.base
            &&& next.blocks@ == cursor.blocks@
            &&& next.remaining == cursor.remaining
            &&& action matches SubmitAction::SendTransaction(request) && request@ == submit_transaction(
                ro,
                header_rlp@,
            )
        } else {
            // A header that is longer than a call can carry is passed over.
            turned(cursor.base, cursor.blocks@, cursor.remaining as int, next, action)
        },
        // A block whose header cannot be had is passed over.
        (SubmitPhase::Header, SubmitEvent::Failed) => turned(
            cursor.base,
            cursor.blocks@,
            cursor.remaining as int,
            next,
            action,
        ),
        // Whatever came of the transaction, the next block is turned to.
        (SubmitPhase::Sending, SubmitEvent::Sent(_)) => turned(
            cursor.base,
            cursor.blocks@,
            cursor.remaining as int,
            next,
            action,
        ),
        // A transaction that failed does not end the run.
        (SubmitPhase::Sending, SubmitEvent::Failed) => turned(
            cursor.base,
            cursor.blocks@,
            cursor.remaining as int,
            next,
            action,
        ),
        _ => {
            &&& next.phase == SubmitPhase::Finished
            &&& action is Done
        },
    }
}

/// Turns to the next block.
fn turn(cursor: &mut SubmitCursor) -> (action: SubmitAction)
    ensures
        turned(
            old(cursor).base,
            old(cursor).blocks@,
            old(cursor).remaining as int,
            *final(cursor),
            action,
        ),
{
    if 0 < cursor.remaining && cursor.remaining <= cursor.blocks.len() {
        cursor.remaining -= 1;
        cursor.phase = SubmitPhase::Header;
        SubmitAction::FetchHeaderRlp { number: cursor.blocks[cursor.remaining].number }
    } else {
        cursor.phase = SubmitPhase::Finished;
        SubmitAction::Done
    }
}

impl SharedState {
    /// One move of the submit step. A run begins with a new cursor and the
    /// event `Begin`; it is over when the action is `Done`.
    ///
    /// Where the safe head is the head there is nothing to do. Otherwise the
    /// blocks between the two are walked back from the head, and then, from
    /// the oldest on, each block's header is fetched and sent to the bridge.
    /// The step reads the record and does not change it.
    pub fn submit_blocks(&self, cursor: &mut SubmitCursor, event: SubmitEvent) -> (action: SubmitAction)
        ensures
            submit_step(self.ro, self.rw@, *old(cursor), event, *final(cursor), action),
    {
        match (cursor.phase, event) {
            (SubmitPhase::Start, SubmitEvent::Begin) => {
                let base = self.rw.chain_state.safe_block_hash;
                let head = self.rw.chain_state.head_block_hash;
                if base.same(&head) {
                    cursor.phase = SubmitPhase::Finished;
                    return SubmitAction::Done;
                }
                cursor.phase = SubmitPhase::Walking;
                cursor.base = base;
                cursor.blocks = Vec::new();
                SubmitAction::FetchBlock { hash: head }
            },
            (SubmitPhase::Walking, SubmitEvent::Block(block)) => {
                cursor.blocks.push(block);
                if block.parent_hash.same(&cursor.base) {
                    cursor.remaining = cursor.blocks.len();
                    turn(cursor)
                } else {
                    SubmitAction::FetchBlock { hash: block.parent_hash }
                }
            },
            (SubmitPhase::Header, SubmitEvent::HeaderRlp(header_rlp)) => {
                match self.ro.l1_bridge_abi.encode_submit_block(header_rlp) {
                    Some(calldata) => {
                        cursor.phase = SubmitPhase::Sending;
                        SubmitAction::SendTransaction(
                            self.transaction_to_l1(self.ro.l1_bridge_addr, U256::zero(), calldata),
                        )
                    },
                    None => turn(cursor),
                }
            },
            (SubmitPhase::Header, SubmitEvent::Failed) => turn(cursor),
            (SubmitPhase::Sending, SubmitEvent::Sent(_)) => turn(cursor),
            (SubmitPhase::Sending, SubmitEvent::Failed) => turn(cursor),
            _ => {
                cursor.phase = SubmitPhase::Finished;
                SubmitAction::Done
            },
        }
    }
}

} // verus!

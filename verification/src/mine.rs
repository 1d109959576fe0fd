//! The mine step: one waiting message is delivered to the rollup chain, the
//! leader node mines a block if transactions wait in its pool, and the head
//! follows the leader node's chain.

use vstd::prelude::*;
use crate::primitives::H256;
use crate::rpc::{
    is_call, Node, RpcCall, CALL_TIMEOUT_MS, ETH_GET_BLOCK_BY_NUMBER, MINER_START, MINER_STOP,
    TXPOOL_STATUS,
};
use crate::shared_state::{l2_transaction, RoState, RwView, SharedState};
use crate::structs::{ChainView, TransactionRequest};
use crate::transact::TransactOutcome;

verus! {

/// The number of threads that the leader node mines with.
pub const MINER_THREADS: u64 = 1;

/// What the caller of the mine step does next.
#[derive(Clone, Debug, PartialEq, Eq)]
pub enum MineAction {
    /// Send this transaction to the rollup chain.
    SendTransaction(TransactionRequest),
    /// Ask the leader node how many transactions wait in its pool.
    PollTxpool,
    /// Tell the leader node to mine.
    StartMiner { threads: u64 },
    /// Tell the leader node to stop mining.
    StopMiner,
    /// Ask the leader node for the hash of its latest block.
    FetchHead,
    /// The step is over.
    Done,
}

impl MineAction {
    /// The call that the action stands for. Every call goes to the leader
    /// node; those that poll and steer it must answer within the usual time.
    pub fn rpc(&self) -> (call: Option<RpcCall>)
        ensures
            match self {
                MineAction::PollTxpool => is_call(call, Node::Leader, TXPOOL_STATUS, Some(CALL_TIMEOUT_MS)),
                MineAction::StartMiner { .. } => is_call(
                    call,
                    Node::Leader,
                    MINER_START,
                    Some(CALL_TIMEOUT_MS),
                ),
                MineAction::StopMiner => is_call(call, Node::Leader, MINER_STOP, Some(CALL_TIMEOUT_MS)),
                MineAction::FetchHead => is_call(call, Node::Leader, ETH_GET_BLOCK_BY_NUMBER, None),
                MineAction::SendTransaction(_) => call is None,
                MineAction::Done => call is None,
            },
    {
        match self {
            MineAction::PollTxpool => Some(
                RpcCall { node: Node::Leader, method: TXPOOL_STATUS, timeout_ms: Some(CALL_TIMEOUT_MS) },
            ),
            MineAction::StartMiner { .. } => Some(
                RpcCall { node: Node::Leader, method: MINER_START, timeout_ms: Some(CALL_TIMEOUT_MS) },
            ),
            MineAction::StopMiner => Some(
                RpcCall { node: Node::Leader, method: MINER_STOP, timeout_ms: Some(CALL_TIMEOUT_MS) },
            ),
            MineAction::FetchHead => Some(
                RpcCall { node: Node::Leader, method: ETH_GET_BLOCK_BY_NUMBER, timeout_ms: None },
            ),
            _ => None,
        }
    }
}

/// What the caller of the mine step reports.
#[derive(Clone, Copy, Debug, PartialEq, Eq)]
pub enum MineEvent {
    /// The step begins.
    Begin,
    /// The sending of the transaction is over, and this came of it.
    Sent(TransactOutcome),
    /// The number of transactions that wait in the leader node's pool.
    TxpoolStatus { pending: u64 },
    /// The leader node answered the call to mine, with a result or an error.
    MinerStarted,
    /// The leader node answered the call to stop, with a result or an error.
    MinerStopped,
    /// The hash of the leader node's latest block.
    Head(H256),
    /// The call failed or ran out of time.
    Failed,
}

/// What the mine step waits for.
#[derive(Clone, Copy, Debug, PartialEq, Eq)]
pub enum MinePhase {
    /// Its beginning.
    Start,
    /// Word on the delivery of a message.
    Delivering,
    /// The state of the leader node's pool.
    Polling,
    /// The answer to the call to mine.
    Starting,
    /// The answer to the call to stop.
    Stopping,
    /// The leader node's head.
    Head,
    /// Nothing: the step is over.
    Finished,
}

/// One move of the mine step.
pub open spec fn mine_step(
    ro: RoState,
    before: RwView,
    phase: MinePhase,
    event: MineEvent,
    after: RwView,
    next: MinePhase,
    action: MineAction,
) -> bool {
    match (phase, event) {
        (MinePhase::Start, MineEvent::Begin) => if before.queue.len() > 0 {
            // The message that waited longest leaves the queue and goes to
            // the rollup chain, whether or not it arrives.
            let message = before.queue[0];
            &&& after == RwView { queue: before.queue.drop_first(), ..before }
            &&& next == MinePhase::Delivering
            &&& action matches MineAction::SendTransaction(request) && request@ == l2_transaction(
                ro,
                message.to,
                message.value,
                message.calldata,
            )
        } else {
            &&& after == before
            &&& next == MinePhase::Polling
            &&& action is PollTxpool
        },
        // Whatever came of the message, it is not sent again.
        (MinePhase::Delivering, MineEvent::Sent(_)) => {
            &&& after == before
            &&& next == MinePhase::Polling
            &&& action is PollTxpool
        },
        (MinePhase::Delivering, MineEvent::Failed) => {
            &&& after == before
            &&& next == MinePhase::Polling
            &&& action is PollTxpool
        },
        (MinePhase::Polling, MineEvent::TxpoolStatus { pending }) => if pending > 0 {
            &&& after == before
            &&& next == MinePhase::Starting
            &&& action == (MineAction::StartMiner { threads: MINER_THREADS })
        } else {
            &&& after == before
            &&& next == MinePhase::Stopping
            &&& action is StopMiner
        },
        // However the call to mine ended, the leader node is told to stop.
        (MinePhase::Starting, MineEvent::MinerStarted) => {
            &&& after == before
            &&& next == MinePhase::Stopping
            &&& action is StopMiner
        },
        (MinePhase::Starting, MineEvent::Failed) => {
            &&& after == before
            &&& next == MinePhase::Stopping
            &&& action is StopMiner
        },
        (MinePhase::Stopping, MineEvent::MinerStopped) => {
            &&& after == before
            &&& next == MinePhase::Head
            &&& action is FetchHead
        },
        (MinePhase::Head, MineEvent::Head(hash)) => {
            &&& after == RwView { chain: ChainView { head: hash@, ..before.chain }, ..before }
            &&& next == MinePhase::Finished
            &&& action is Done
        },
        _ => {
            &&& after == before
            &&& next == MinePhase::Finished
            &&& action is Done
        },
    }
}

/// What the mine step leaves alone: the safe and the finalized head,
/// `last_sync_block`, the proof requests, their counter and the node list.
pub open spec fn mine_keeps(before: RwView, after: RwView) -> bool {
    &&& after.chain.safe == before.chain.safe
    &&& after.chain.finalized == before.chain.finalized
    &&& after.last_sync_block == before.last_sync_block
    &&& after.requests == before.requests
    &&& after.pending_proofs == before.pending_proofs
    &&& after.nodes == before.nodes
}

impl SharedState {
    /// One move of the mine step. A run begins in the phase `Start` with the
    /// event `Begin`; it is over when the action is `Done`.
    ///
    /// At most one message leaves the queue in a run.
    pub fn mine(&mut self, phase: MinePhase, event: MineEvent) -> (moved: (MinePhase, MineAction))
        ensures
            final(self).ro == old(self).ro,
            mine_step(old(self).ro, old(self).rw@, phase, event, final(self).rw@, moved.0, moved.1),
            mine_keeps(old(self).rw@, final(self).rw@),
            old(self).rw@.wf() ==> final(self).rw@.wf(),
    {
        match (phase, event) {
            (MinePhase::Start, MineEvent::Begin) => {
                if self.rw.l1_message_queue.len() > 0 {
                    let ghost queue = self.rw@.queue;
                    let message = self.rw.l1_message_queue.remove(0);
                    assert(self.rw@.queue =~= queue.drop_first());
                    let request = self.transaction_to_l2(message.to, message.value, message.calldata);
                    (MinePhase::Delivering, MineAction::SendTransaction(request))
                } else {
                    (MinePhase::Polling, MineAction::PollTxpool)
                }
            },
            (MinePhase::Delivering, MineEvent::Sent(_)) => (MinePhase::Polling, MineAction::PollTxpool),
            (MinePhase::Delivering, MineEvent::Failed) => (MinePhase::Polling, MineAction::PollTxpool),
            (MinePhase::Polling, MineEvent::TxpoolStatus { pending }) => {
                if pending > 0 {
                    (MinePhase::Starting, MineAction::StartMiner { threads: MINER_THREADS })
                } else {
                    (MinePhase::Stopping, MineAction::StopMiner)
                }
            },
            (MinePhase::Starting, MineEvent::MinerStarted) => (MinePhase::Stopping, MineAction::StopMiner),
            (MinePhase::Starting, MineEvent::Failed) => (MinePhase::Stopping, MineAction::StopMiner),
            (MinePhase::Stopping, MineEvent::MinerStopped) => (MinePhase::Head, MineAction::FetchHead),
            (MinePhase::Head, MineEvent::Head(hash)) => {
                self.rw.chain_state.head_block_hash = hash;
                (MinePhase::Finished, MineAction::Done)
            },
            _ => (MinePhase::Finished, MineAction::Done),
        }
    }
}

} // verus!

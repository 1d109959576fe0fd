//! The sync step: the logs of the bridge are pulled range by range and
//! consumed in the order in which the settlement chain's node returns them.
//!
//! The step is a machine. Its caller performs each action that `sync` returns
//! and hands the outcome back as the next event, until the action is `Done`.

use vstd::prelude::*;
use crate::bridge::{decode_message, finalized_block_hash, message_of, payload_of, submitted_block_hash};
use crate::hashing::is_keccak_of;
use crate::primitives::{zeros, Address, H256};
use crate::rpc::{
    is_call, Node, RpcCall, ETH_BLOCK_NUMBER, ETH_GET_HEADER_BY_HASH, ETH_GET_LOGS,
    ETH_GET_TRANSACTION_BY_HASH,
};
use crate::shared_state::{RoState, RwView, SharedState};
use crate::structs::{ChainView, Log};

verus! {

/// The number of blocks by which the upper end of a range lies above its lower
/// end, where the settlement chain is that far ahead.
pub const STEP: u64 = 1;

/// What a log of the bridge reports.
#[derive(Clone, Copy, Debug, PartialEq, Eq)]
pub enum LogKind {
    BlockSubmitted,
    BlockFinalized,
    MessageSent,
    /// A log without topics, or with a first topic that is none of the three.
    Other,
}

/// The kind of a log, by its first topic.
pub open spec fn kind_of(ro: RoState, log: Log) -> LogKind {
    if log.topics@.len() == 0 {
        LogKind::Other
    } else if log.topics@[0] == ro.block_beacon_topic {
        LogKind::BlockSubmitted
    } else if log.topics@[0] == ro.block_finalized_topic {
        LogKind::BlockFinalized
    } else if log.topics@[0] == ro.message_beacon_topic {
        LogKind::MessageSent
    } else {
        LogKind::Other
    }
}

/// The kind of a log, by its first topic.
pub fn classify(ro: &RoState, log: &Log) -> (kind: LogKind)
    ensures
        kind == kind_of(*ro, *log),
{
    if log.topics.len() == 0 {
        return LogKind::Other;
    }
    let topic = &log.topics[0];
    if topic.same(&ro.block_beacon_topic) {
        LogKind::BlockSubmitted
    } else if topic.same(&ro.block_finalized_topic) {
        LogKind::BlockFinalized
    } else if topic.same(&ro.message_beacon_topic) {
        LogKind::MessageSent
    } else {
        LogKind::Other
    }
}

/// The record after a log that needs no answer from a node. A finalized block
/// becomes the finalized head; a message joins the queue. A log whose data
/// does not decode changes nothing, and neither does any other log.
pub open spec fn after_log(ro: RoState, rw: RwView, log: Log) -> RwView {
    match kind_of(ro, log) {
        LogKind::BlockFinalized => if log.data@.len() == 32 {
            RwView { chain: ChainView { finalized: log.data@, ..rw.chain }, ..rw }
        } else {
            rw
        },
        LogKind::MessageSent => if log.topics@.len() == 1 && message_of(log.data@) is Some {
            RwView { queue: rw.queue.push(message_of(log.data@)->0), ..rw }
        } else {
            rw
        },
        _ => rw,
    }
}

/// Whether the log reports a submitted block and names the transaction that
/// submitted it: the block's hash is then in that transaction's calldata.
pub open spec fn waits_for_transaction(ro: RoState, log: Log) -> bool {
    kind_of(ro, log) == LogKind::BlockSubmitted && log.transaction_hash is Some
}

/// The first log from `start` on that waits for its transaction, or the
/// number of logs if none does.
pub open spec fn next_stop(ro: RoState, logs: Seq<Log>, start: int) -> int
    decreases logs.len() - start,
{
    if start >= logs.len() {
        logs.len() as int
    } else if waits_for_transaction(ro, logs[start]) {
        start
    } else {
        next_stop(ro, logs, start + 1)
    }
}

/// The record after the logs from `start` up to `end`, in order.
pub open spec fn after_logs(ro: RoState, rw: RwView, logs: Seq<Log>, start: int, end: int) -> RwView
    decreases end - start,
{
    if end <= start {
        rw
    } else {
        after_log(ro, after_logs(ro, rw, logs, start, end - 1), logs[end - 1])
    }
}

/// The upper end of the range that begins at `from`.
pub open spec fn range_end(from: u64, latest: u64) -> u64 {
    if latest - from >= STEP {
        (from + STEP) as u64
    } else {
        latest
    }
}

/// The logs to ask the settlement chain's node for: those of the bridge with
/// one of the three topics, in the blocks from `from_block` to `to_block`.
#[derive(Clone, Copy, Debug, PartialEq, Eq)]
pub struct LogFilter {
    pub address: Address,
    pub block_beacon_topic: H256,
    pub block_finalized_topic: H256,
    pub message_beacon_topic: H256,
    pub from_block: u64,
    pub to_block: u64,
}

/// The filter for the blocks from `from` to `to`.
pub open spec fn log_filter(ro: RoState, from: u64, to: u64) -> LogFilter {
    LogFilter {
        address: ro.l1_bridge_addr,
        block_beacon_topic: ro.block_beacon_topic,
        block_finalized_topic: ro.block_finalized_topic,
        message_beacon_topic: ro.message_beacon_topic,
        from_block: from,
        to_block: to,
    }
}

/// What the caller does next.
#[derive(Clone, Copy, Debug, PartialEq, Eq)]
pub enum SyncAction {
    /// Ask the settlement chain's node for the number of its latest block.
    FetchLatest,
    /// Ask the settlement chain's node for the logs that match.
    FetchLogs { filter: LogFilter },
    /// Ask the settlement chain's node for the transaction of this hash.
    FetchTransaction { hash: H256 },
    /// Ask the leader node whether it knows the header of this hash.
    CheckHeader { hash: H256 },
    /// The step is over.
    Done,
}

impl SyncAction {
    /// The call that the action stands for. The logs and the transactions
    /// are the settlement chain's; whether a block is known is asked of the
    /// leader node.
    pub fn rpc(&self) -> (call: Option<RpcCall>)
        ensures
            match self {
                SyncAction::FetchLatest => is_call(call, Node::L1, ETH_BLOCK_NUMBER, None),
                SyncAction::FetchLogs { .. } => is_call(call, Node::L1, ETH_GET_LOGS, None),
                SyncAction::FetchTransaction { .. } => is_call(
                    call,
                    Node::L1,
                    ETH_GET_TRANSACTION_BY_HASH,
                    None,
                ),
                SyncAction::CheckHeader { .. } => is_call(call, Node::Leader, ETH_GET_HEADER_BY_HASH, None),
                SyncAction::Done => call is None,
            },
    {
        match self {
            SyncAction::FetchLatest => Some(
                RpcCall { node: Node::L1, method: ETH_BLOCK_NUMBER, timeout_ms: None },
            ),
            SyncAction::FetchLogs { .. } => Some(
                RpcCall { node: Node::L1, method: ETH_GET_LOGS, timeout_ms: None },
            ),
            SyncAction::FetchTransaction { .. } => Some(
                RpcCall { node: Node::L1, method: ETH_GET_TRANSACTION_BY_HASH, timeout_ms: None },
            ),
            SyncAction::CheckHeader { .. } => Some(
                RpcCall { node: Node::Leader, method: ETH_GET_HEADER_BY_HASH, timeout_ms: None },
            ),
            SyncAction::Done => None,
        }
    }
}

/// What the caller reports.
#[derive(Clone, Debug, PartialEq, Eq)]
pub enum SyncEvent {
    /// The step begins.
    Begin,
    /// The number of the settlement chain's latest block.
    Latest(u64),
    /// The logs asked for, in the node's order.
    Logs(Vec<Log>),
    /// The calldata of the transaction asked for.
    Transaction(Vec<u8>),
    /// Whether the leader node knows the header asked for.
    Header(bool),
    /// The call failed or ran out of time.
    Failed,
}

/// What the step waits for.
#[derive(Clone, Copy, Debug, PartialEq, Eq)]
pub enum SyncPhase {
    /// Its beginning.
    Start,
    /// The latest block number.
    Latest,
    /// The logs of the range that ends at `to`.
    Logs,
    /// The transaction of the log at `index`.
    Transaction,
    /// Word on the block that the log at `index` reports.
    Header,
    /// Nothing: the step is over.
    Finished,
}

/// How far one run of the step has come.
#[derive(Clone, Debug, PartialEq, Eq)]
pub struct SyncCursor {
    pub phase: SyncPhase,
    /// The settlement chain's latest block when the run began.
    pub latest: u64,
    /// The upper end of the range at hand.
    pub to: u64,
    /// The logs of the range at hand.
    pub logs: Vec<Log>,
    /// The log that waits for an answer.
    pub index: usize,
    /// The hash of the block that the log at `index` reports.
    pub block_hash: H256,
}

impl SyncCursor {
    /// The cursor of a run that is about to begin: it waits for the
    /// beginning, holds no logs and no block hash, and has seen no block of
    /// the settlement chain.
    pub fn new() -> (cursor: SyncCursor)
        ensures
            cursor.phase == SyncPhase::Start,
            cursor.latest == 0,
            cursor.to == 0,
            cursor.logs@ == Seq::<Log>::empty(),
            cursor.index == 0,
            cursor.block_hash@ == zeros(32),
    {
        SyncCursor {
            phase: SyncPhase::Start,
            latest: 0,
            to: 0,
            logs: Vec::new(),
            index: 0,
            block_hash: H256::zero(),
        }
    }
}

/// What holds when the logs of the range that ends at `to` have been taken up
/// from `start` on. The logs up to the next one that waits for its transaction
/// are consumed, and that transaction is asked for. If none waits, the next
/// range is asked for; after the last range the run is over, and
/// `last_sync_block` becomes `latest` unless it is there or further already.
pub open spec fn resumed(
    ro: RoState,
    before: RwView,
    latest: u64,
    to: u64,
    logs: Seq<Log>,
    start: int,
    after: RwView,
    next: SyncCursor,
    action: SyncAction,
) -> bool {
    let stop = next_stop(ro, logs, start);
    let consumed = after_logs(ro, before, logs, start, stop);
    if stop < logs.len() {
        &&& after == consumed
        &&& next.phase == SyncPhase::Transaction
        &&& next.latest == latest
        &&& next.to == to
        &&& next.logs@ == logs
        &&& next.index == stop
        &&& action == SyncAction::FetchTransaction { hash: logs[stop].transaction_hash->0 }
    } else if to < latest {
        let from = (to + 1) as u64;
        &&& after == consumed
        &&& next.phase == SyncPhase::Logs
        &&& next.latest == latest
        &&& next.to == range_end(from, latest)
        &&& action == SyncAction::FetchLogs { filter: log_filter(ro, from, range_end(from, latest)) }
    } else {
        &&& after == RwView {
            last_sync_block: if consumed.last_sync_block < latest {
                latest
            } else {
                consumed.last_sync_block
            },
            ..consumed
        }
        &&& next.phase == SyncPhase::Finished
        &&& action == SyncAction::Done
    }
}

/// One move of the sync step: what the record and the cursor are after the
/// event, and what the caller does next.
pub open spec fn sync_step(
    ro: RoState,
    before: RwView,
    cursor: SyncCursor,
    event: SyncEvent,
    after: RwView,
    next: SyncCursor,
    action: SyncAction,
) -> bool {
    let at_log = cursor.index < cursor.logs@.len();
    match (cursor.phase, event) {
        (SyncPhase::Start, SyncEvent::Begin) => {
            &&& after == before
            &&& next.phase == SyncPhase::Latest
            &&& action == SyncAction::FetchLatest
        },
        (SyncPhase::Latest, SyncEvent::Latest(latest)) => if before.last_sync_block >= latest {
            // Nothing new on the settlement chain.
            &&& after == before
            &&& next.phase == SyncPhase::Finished
            &&& action == SyncAction::Done
        } else {
            let from = (before.last_sync_block + 1) as u64;
            &&& after == before
            &&& next.phase == SyncPhase::Logs
            &&& next.latest == latest
            &&& next.to == range_end(from, latest)
            &&& action == SyncAction::FetchLogs { filter: log_filter(ro, from, range_end(from, latest)) }
        },
        (SyncPhase::Logs, SyncEvent::Logs(logs)) => resumed(
            ro,
            before,
            cursor.latest,
            cursor.to,
            logs@,
            0,
            after,
            next,
            action,
        ),
        (SyncPhase::Transaction, SyncEvent::Transaction(input)) => if !at_log {
            aborted(before, after, next, action)
        } else if payload_of(input@) is Some {
            // The block's hash is that of the header in the calldata.
            &&& after == before
            &&& next.phase == SyncPhase::Header
            &&& next.latest == cursor.latest
            &&& next.to == cursor.to
            &&& next.logs@ == cursor.logs@
            &&& next.index == cursor.index
            &&& is_keccak_of(next.block_hash, payload_of(input@)->0)
            &&& action == SyncAction::CheckHeader { hash: next.block_hash }
        } else {
            // Calldata too short to hold a header: the log is passed over.
            resumed(
                ro,
                before,
                cursor.latest,
                cursor.to,
                cursor.logs@,
                cursor.index + 1,
                after,
                next,
                action,
            )
        },
        (SyncPhase::Header, SyncEvent::Header(known)) => if !at_log {
            aborted(before, after, next, action)
        } else {
            // A block that the leader node knows becomes the safe head; one
            // that it does not know is passed over.
            let noted = if known {
                RwView { chain: ChainView { safe: cursor.block_hash@, ..before.chain }, ..before }
            } else {
                before
            };
            resumed(
                ro,
                noted,
                cursor.latest,
                cursor.to,
                cursor.logs@,
                cursor.index + 1,
                after,
                next,
                action,
            )
        },
        _ => aborted(before, after, next, action),
    }
}

/// The run ends where it is: after a failure, or an event that the phase does
/// not wait for. The record stays as it is, and `last_sync_block` with it, so
/// that the next run begins at the same block.
pub open spec fn aborted(before: RwView, after: RwView, next: SyncCursor, action: SyncAction) -> bool {
    &&& after == before
    &&& next.phase == SyncPhase::Finished
    &&& action == SyncAction::Done
}

impl SharedState {
    /// Consumes a log that needs no answer from a node.
    fn apply_log(&mut self, log: &Log)
        ensures
            final(self).ro == old(self).ro,
            final(self).rw@ == after_log(old(self).ro, old(self).rw@, *log),
    {
        match classify(&self.ro, log) {
            LogKind::BlockFinalized => {
                match finalized_block_hash(log.data.as_slice()) {
                    Some(hash) => {
                        self.rw.chain_state.finalized_block_hash = hash;
                    },
                    None => {},
                }
            },
            LogKind::MessageSent => {
                if log.topics.len() == 1 {
                    match decode_message(log.data.as_slice()) {
                        Some(beacon) => {
                            let ghost queue = self.rw.l1_message_queue@;
                            self.rw.l1_message_queue.push(beacon);
                            assert(self.rw@.queue =~= old(self).rw@.queue.push(beacon@));
                        },
                        None => {},
                    }
                }
            },
            _ => {},
        }
    }

    /// Takes up the logs of the cursor's range from `start` on.
    fn resume(&mut self, cursor: &mut SyncCursor, start: usize) -> (action: SyncAction)
        requires
            start <= old(cursor).logs@.len(),
        ensures
            final(self).ro == old(self).ro,
            resumed(
                old(self).ro,
                old(self).rw@,
                old(cursor).latest,
                old(cursor).to,
                old(cursor).logs@,
                start as int,
                final(self).rw@,
                *final(cursor),
                action,
            ),
            sync_keeps(old(self).rw@, final(self).rw@),
    {
        let ghost ro = self.ro;
        let ghost before = self.rw@;
        let ghost logs = cursor.logs@;
        proof {
            lemma_next_stop(ro, logs, start as int);
            lemma_after_logs_keeps(ro, before, logs, start as int, next_stop(ro, logs, start as int));
        }
        let count = cursor.logs.len();
        let mut i: usize = start;
        while i < count
            invariant
                start <= i <= count,
                count == logs.len(),
                ro == old(self).ro,
                before == old(self).rw@,
                logs == old(cursor).logs@,
                sync_keeps(before, after_logs(ro, before, logs, start as int, next_stop(ro, logs, start as int))),
                cursor.logs@ == logs,
                cursor.latest == old(cursor).latest,
                cursor.to == old(cursor).to,
                self.ro == ro,
                next_stop(ro, logs, start as int) == next_stop(ro, logs, i as int),
                self.rw@ == after_logs(ro, before, logs, start as int, i as int),
            decreases count - i,
        {
            let log = &cursor.logs[i];
            match classify(&self.ro, log) {
                LogKind::BlockSubmitted => {
                    match log.transaction_hash {
                        Some(hash) => {
                            cursor.phase = SyncPhase::Transaction;
                            cursor.index = i;
                            return SyncAction::FetchTransaction { hash };
                        },
                        None => {},
                    }
                },
                _ => {},
            }
            self.apply_log(log);
            i += 1;
        }
        if cursor.to < cursor.latest {
            let from = cursor.to + 1;
            let to = if cursor.latest - from >= STEP {
                from + STEP
            } else {
                cursor.latest
            };
            cursor.phase = SyncPhase::Logs;
            cursor.to = to;
            cursor.logs = Vec::new();
            return SyncAction::FetchLogs { filter: self.log_filter(from, to) };
        }
        if self.rw.last_sync_block < cursor.latest {
            self.rw.last_sync_block = cursor.latest;
        }
        cursor.phase = SyncPhase::Finished;
        cursor.logs = Vec::new();
        SyncAction::Done
    }

    /// The filter for the bridge's logs in the blocks from `from` to `to`.
    pub fn log_filter(&self, from: u64, to: u64) -> (filter: LogFilter)
        ensures
            filter == log_filter(self.ro, from, to),
    {
        LogFilter {
            address: self.ro.l1_bridge_addr,
            block_beacon_topic: self.ro.block_beacon_topic,
            block_finalized_topic: self.ro.block_finalized_topic,
            message_beacon_topic: self.ro.message_beacon_topic,
            from_block: from,
            to_block: to,
        }
    }

    /// One move of the sync step. A run begins with a new cursor and the
    /// event `Begin`; it is over when the action is `Done`.
    ///
    /// `last_sync_block` never moves back, and the proof requests are not
    /// touched.
    pub fn sync(&mut self, cursor: &mut SyncCursor, event: SyncEvent) -> (action: SyncAction)
        ensures
            final(self).ro == old(self).ro,
            sync_step(
                old(self).ro,
                old(self).rw@,
                *old(cursor),
                event,
                final(self).rw@,
                *final(cursor),
                action,
            ),
            sync_keeps(old(self).rw@, final(self).rw@),
            old(self).rw@.wf() ==> final(self).rw@.wf(),
    {
        match (cursor.phase, event) {
            (SyncPhase::Start, SyncEvent::Begin) => {
                cursor.phase = SyncPhase::Latest;
                SyncAction::FetchLatest
            },
            (SyncPhase::Latest, SyncEvent::Latest(latest)) => {
                if self.rw.last_sync_block >= latest {
                    cursor.phase = SyncPhase::Finished;
                    return SyncAction::Done;
                }
                let from = self.rw.last_sync_block + 1;
                let to = if latest - from >= STEP {
                    from + STEP
                } else {
                    latest
                };
                cursor.phase = SyncPhase::Logs;
                cursor.latest = latest;
                cursor.to = to;
                SyncAction::FetchLogs { filter: self.log_filter(from, to) }
            },
            (SyncPhase::Logs, SyncEvent::Logs(logs)) => {
                cursor.logs = logs;
                self.resume(cursor, 0)
            },
            (SyncPhase::Transaction, SyncEvent::Transaction(input)) => {
                if cursor.index >= cursor.logs.len() {
                    cursor.phase = SyncPhase::Finished;
                    return SyncAction::Done;
                }
                match submitted_block_hash(input.as_slice()) {
                    Some(hash) => {
                        cursor.phase = SyncPhase::Header;
                        cursor.block_hash = hash;
                        SyncAction::CheckHeader { hash }
                    },
                    None => {
                        let start = cursor.index + 1;
                        self.resume(cursor, start)
                    },
                }
            },
            (SyncPhase::Header, SyncEvent::Header(known)) => {
                if cursor.index >= cursor.logs.len() {
                    cursor.phase = SyncPhase::Finished;
                    return SyncAction::Done;
                }
                if known {
                    self.rw.chain_state.safe_block_hash = cursor.block_hash;
                }
                let start = cursor.index + 1;
                self.resume(cursor, start)
            },
            _ => {
                cursor.phase = SyncPhase::Finished;
                SyncAction::Done
            },
        }
    }
}

/// What the sync step leaves alone: `last_sync_block` never moves back, and
/// the head, the proof requests, their counter and the node list stay.
pub open spec fn sync_keeps(before: RwView, after: RwView) -> bool {
    &&& after.last_sync_block >= before.last_sync_block
    &&& after.requests == before.requests
    &&& after.pending_proofs == before.pending_proofs
    &&& after.nodes == before.nodes
    &&& after.chain.head == before.chain.head
}

/// The next stop lies between the start and the end of the logs.
pub proof fn lemma_next_stop(ro: RoState, logs: Seq<Log>, start: int)
    requires
        0 <= start <= logs.len(),
    ensures
        start <= next_stop(ro, logs, start) <= logs.len(),
        next_stop(ro, logs, start) < logs.len() ==> waits_for_transaction(
            ro,
            logs[next_stop(ro, logs, start)],
        ),
        forall|i: int|
            start <= i < next_stop(ro, logs, start) ==> !waits_for_transaction(ro, #[trigger] logs[i]),
    decreases logs.len() - start,
{
    if start < logs.len() && !waits_for_transaction(ro, logs[start]) {
        lemma_next_stop(ro, logs, start + 1);
    }
}

/// Logs that need no answer change only the finalized head and the queue.
pub proof fn lemma_after_logs_keeps(ro: RoState, rw: RwView, logs: Seq<Log>, start: int, end: int)
    requires
        0 <= start,
        end <= logs.len(),
    ensures
        sync_keeps(rw, after_logs(ro, rw, logs, start, end)),
        after_logs(ro, rw, logs, start, end).last_sync_block == rw.last_sync_block,
        after_logs(ro, rw, logs, start, end).chain.safe == rw.chain.safe,
    decreases end - start,
{
    if end > start {
        lemma_after_logs_keeps(ro, rw, logs, start, end - 1);
    }
}

} // verus!

//! The calls that the steps ask for, as the nodes know them.

use vstd::prelude::*;

verus! {

/// One of the two nodes that the coordinator talks to.
#[derive(Clone, Copy, Debug, PartialEq, Eq)]
pub enum Node {
    /// The node of the settlement chain.
    L1,
    /// The node that leads the rollup chain.
    Leader,
}

/// The time that a call which polls or steers the leader node may take, in
/// milliseconds. A call that takes longer has failed.
pub const CALL_TIMEOUT_MS: u64 = 5000;

pub const ETH_BLOCK_NUMBER: &'static str = "eth_blockNumber";

pub const ETH_GET_LOGS: &'static str = "eth_getLogs";

pub const ETH_GET_TRANSACTION_BY_HASH: &'static str = "eth_getTransactionByHash";

pub const ETH_GET_HEADER_BY_HASH: &'static str = "eth_getHeaderByHash";

pub const ETH_GET_BLOCK_BY_HASH: &'static str = "eth_getBlockByHash";

pub const ETH_GET_BLOCK_BY_NUMBER: &'static str = "eth_getBlockByNumber";

pub const DEBUG_GET_HEADER_RLP: &'static str = "debug_getHeaderRlp";

pub const TXPOOL_STATUS: &'static str = "txpool_status";

pub const MINER_START: &'static str = "miner_start";

pub const MINER_STOP: &'static str = "miner_stop";

pub const ETH_GET_TRANSACTION_COUNT: &'static str = "eth_getTransactionCount";

pub const ETH_ESTIMATE_GAS: &'static str = "eth_estimateGas";

pub const ETH_GAS_PRICE: &'static str = "eth_gasPrice";

pub const ETH_SEND_RAW_TRANSACTION: &'static str = "eth_sendRawTransaction";

pub const ETH_GET_TRANSACTION_RECEIPT: &'static str = "eth_getTransactionReceipt";

/// A call of a node: the node, the method's name, and the time that the call
/// may take, in milliseconds, if that is bounded.
#[derive(Clone, Copy, Debug, PartialEq, Eq)]
pub struct RpcCall {
    pub node: Node,
    pub method: &'static str,
    pub timeout_ms: Option<u64>,
}

/// Whether `call` is the call of `method` on `node` within `timeout_ms`.
pub open spec fn is_call(call: Option<RpcCall>, node: Node, method: &str, timeout_ms: Option<u64>) -> bool {
    call matches Some(c) && c.node == node && c.method@ == method@ && c.timeout_ms == timeout_ms
}

/// The call that fetches the genesis block of the rollup chain, for `init`:
/// the block of number zero, asked of the leader node within the usual time.
pub fn genesis_call() -> (call: RpcCall)
    ensures
        is_call(Some(call), Node::Leader, ETH_GET_BLOCK_BY_NUMBER, Some(CALL_TIMEOUT_MS)),
{
    RpcCall { node: Node::Leader, method: ETH_GET_BLOCK_BY_NUMBER, timeout_ms: Some(CALL_TIMEOUT_MS) }
}

} // verus!

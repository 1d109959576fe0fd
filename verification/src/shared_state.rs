//! The coordinator's state: a configuration that is fixed at startup, and the
//! record that the steps change.

use std::collections::HashMap;
use vstd::prelude::*;
use crate::bridge::BridgeAbi;
pub use crate::prover::request_proof;
use crate::primitives::{zeros, Address, H256, U256};
use crate::rpc::Node;
use crate::structs::{
    beacons_of, BeaconView, ChainView, ForkchoiceStateV1, L1MessageBeacon, LocalWallet, Proofs,
    ProofsView, TransactionRequest, TransactionView,
};

verus! {

/// The number of proofs that may be in the making at one time.
pub const MAX_PENDING_PROOFS: u32 = 1;

/// The configuration, fixed at startup.
#[derive(Clone, Debug)]
pub struct RoState {
    /// The node that leads the rollup chain.
    pub leader_node: String,
    /// The node of the settlement chain.
    pub l1_node: String,
    /// The bridge contract on the settlement chain.
    pub l1_bridge_addr: Address,
    pub l1_bridge_abi: BridgeAbi,
    /// The topic of `BlockSubmitted`.
    pub block_beacon_topic: H256,
    /// The topic of `BlockFinalized`.
    pub block_finalized_topic: H256,
    /// The topic of `L1MessageSent`.
    pub message_beacon_topic: H256,
    pub l1_wallet: LocalWallet,
    pub l2_wallet: LocalWallet,
}

/// The record that the steps change.
#[derive(Debug)]
pub struct RwState {
    pub chain_state: ForkchoiceStateV1,
    /// Other nodes of the rollup chain. No step reads it.
    pub nodes: Vec<String>,
    /// The proof of each block that one was asked for: `None` while it is in
    /// the making, the proof once it is there.
    pub prover_requests: HashMap<u64, Option<Proofs>>,
    /// The number of proofs in the making.
    pub pending_proofs: u32,
    /// The last block of the settlement chain whose logs were consumed.
    pub last_sync_block: u64,
    /// The messages that wait to be delivered, first in first.
    pub l1_message_queue: Vec<L1MessageBeacon>,
}

/// The record as mathematics sees it.
pub struct RwView {
    pub chain: ChainView,
    pub nodes: Seq<String>,
    pub requests: Map<u64, Option<ProofsView>>,
    pub pending_proofs: u32,
    pub last_sync_block: u64,
    pub queue: Seq<BeaconView>,
}

/// A proof slot as mathematics sees it.
pub open spec fn slot_view(slot: Option<Proofs>) -> Option<ProofsView> {
    match slot {
        Some(proofs) => Some(proofs@),
        None => None,
    }
}

impl View for RwState {
    type V = RwView;

    open spec fn view(&self) -> RwView {
        RwView {
            chain: self.chain_state@,
            nodes: self.nodes@,
            requests: self.prover_requests@.map_values(|slot: Option<Proofs>| slot_view(slot)),
            pending_proofs: self.pending_proofs,
            last_sync_block: self.last_sync_block,
            queue: beacons_of(self.l1_message_queue@),
        }
    }
}

impl RwView {
    /// The blocks whose proof is in the making.
    pub open spec fn pending_slots(self) -> Set<u64> {
        Set::new(|k: u64| self.requests.contains_key(k) && self.requests[k] is None)
    }

    /// The counter counts the proofs in the making, and they are no more than
    /// allowed.
    pub open spec fn wf(self) -> bool {
        &&& self.requests.dom().finite()
        &&& self.pending_slots().len() == self.pending_proofs
        &&& self.pending_proofs <= MAX_PENDING_PROOFS
    }
}

impl RoState {
    /// The address of a node.
    pub fn node_url(&self, node: Node) -> (url: &String)
        ensures
            *url == match node {
                Node::L1 => self.l1_node,
                Node::Leader => self.leader_node,
            },
    {
        match node {
            Node::L1 => &self.l1_node,
            Node::Leader => &self.leader_node,
        }
    }

    /// The topics are those of the bridge's three events.
    pub open spec fn wf(&self) -> bool {
        &&& self.l1_bridge_abi.wf()
        &&& self.block_beacon_topic == self.l1_bridge_abi.block_submitted
        &&& self.block_finalized_topic == self.l1_bridge_abi.block_finalized
        &&& self.message_beacon_topic == self.l1_bridge_abi.message_sent
    }
}

/// The coordinator's state.
#[derive(Debug)]
pub struct SharedState {
    pub ro: RoState,
    pub rw: RwState,
}

impl SharedState {
    pub open spec fn wf(&self) -> bool {
        self.ro.wf() && self.rw@.wf()
    }

    /// The state at startup: no head is known, nothing was synced, nothing
    /// waits.
    pub fn new(
        leader_url: String,
        l1_url: String,
        l1_bridge: Address,
        l1_wallet: LocalWallet,
        l2_wallet: LocalWallet,
    ) -> (state: SharedState)
        ensures
            state.wf(),
            state.ro.leader_node == leader_url,
            state.ro.l1_node == l1_url,
            state.ro.l1_bridge_addr == l1_bridge,
            state.ro.l1_wallet == l1_wallet,
            state.ro.l2_wallet == l2_wallet,
            state.rw@.chain == (ChainView { head: zeros(32), safe: zeros(32), finalized: zeros(32) }),
            state.rw@.nodes == Seq::<String>::empty(),
            state.rw@.requests == Map::<u64, Option<ProofsView>>::empty(),
            state.rw@.pending_proofs == 0,
            state.rw@.last_sync_block == 0,
            state.rw@.queue == Seq::<BeaconView>::empty(),
    {
        let abi = BridgeAbi::new();
        let state = SharedState {
            ro: RoState {
                leader_node: leader_url,
                l1_node: l1_url,
                l1_bridge_addr: l1_bridge,
                l1_bridge_abi: abi,
                block_beacon_topic: abi.block_submitted,
                block_finalized_topic: abi.block_finalized,
                message_beacon_topic: abi.message_sent,
                l1_wallet,
                l2_wallet,
            },
            rw: RwState {
                chain_state: ForkchoiceStateV1 {
                    head_block_hash: H256::zero(),
                    safe_block_hash: H256::zero(),
                    finalized_block_hash: H256::zero(),
                },
                nodes: Vec::new(),
                prover_requests: HashMap::new(),
                pending_proofs: 0,
                last_sync_block: 0,
                l1_message_queue: Vec::new(),
            },
        };
        proof {
            assert(state.rw@.requests =~= Map::<u64, Option<ProofsView>>::empty());
            assert(state.rw@.pending_slots() =~= Set::<u64>::empty());
        }
        state
    }

    /// Sets the three heads to the genesis block of the rollup chain. This is
    /// done once: the head must not be set yet.
    pub fn init(&mut self, genesis: H256)
        requires
            old(self).rw@.chain.head == zeros(32),
        ensures
            final(self).ro == old(self).ro,
            final(self).rw@ == (RwView {
                chain: ChainView { head: genesis@, safe: genesis@, finalized: genesis@ },
                ..old(self).rw@
            }),
            old(self).rw@.wf() ==> final(self).rw@.wf(),
    {
        self.rw.chain_state.head_block_hash = genesis;
        self.rw.chain_state.safe_block_hash = genesis;
        self.rw.chain_state.finalized_block_hash = genesis;
    }

    /// The transaction to the settlement chain that calls `to` with
    /// `calldata`: it goes to the settlement chain's node and is signed by the
    /// wallet of that chain.
    pub fn transaction_to_l1(&self, to: Address, value: U256, calldata: Vec<u8>) -> (request:
        TransactionRequest)
        ensures
            request@ == l1_transaction(self.ro, to@, value@, calldata@),
    {
        TransactionRequest {
            node: self.ro.l1_node.clone(),
            wallet: self.ro.l1_wallet.duplicate(),
            to,
            value,
            calldata,
        }
    }

    /// The transaction to the rollup chain that calls `to` with `calldata`: it
    /// goes to the leader node and is signed by the wallet of the rollup chain.
    pub fn transaction_to_l2(&self, to: Address, value: U256, calldata: Vec<u8>) -> (request:
        TransactionRequest)
        ensures
            request@ == l2_transaction(self.ro, to@, value@, calldata@),
    {
        TransactionRequest {
            node: self.ro.leader_node.clone(),
            wallet: self.ro.l2_wallet.duplicate(),
            to,
            value,
            calldata,
        }
    }
}

/// A transaction to the settlement chain: through its node, signed by its
/// wallet.
pub open spec fn l1_transaction(ro: RoState, to: Seq<u8>, value: Seq<u8>, calldata: Seq<u8>) -> TransactionView {
    TransactionView { node: ro.l1_node@, wallet: ro.l1_wallet@, to, value, calldata }
}

/// A transaction to the rollup chain: through the leader node, signed by the
/// rollup chain's wallet.
pub open spec fn l2_transaction(ro: RoState, to: Seq<u8>, value: Seq<u8>, calldata: Seq<u8>) -> TransactionView {
    TransactionView { node: ro.leader_node@, wallet: ro.l2_wallet@, to, value, calldata }
}

} // verus!

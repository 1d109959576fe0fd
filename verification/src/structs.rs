//! The records that the coordinator keeps and passes on.

use vstd::prelude::*;
use crate::primitives::{Address, H256, U256};

verus! {

/// The three heads of the rollup chain. `finalized` is meant to be an ancestor
/// of `safe`, and `safe` of `head`; the pipeline keeps it so and nothing here
/// checks it.
#[derive(Clone, Copy, Debug, PartialEq, Eq)]
pub struct ForkchoiceStateV1 {
    /// The tip of the rollup chain.
    pub head_block_hash: H256,
    /// The highest block whose header was posted to the bridge.
    pub safe_block_hash: H256,
    /// The highest block whose proof the bridge accepted.
    pub finalized_block_hash: H256,
}

/// The three heads as mathematics sees them: the bytes of each hash.
pub struct ChainView {
    pub head: Seq<u8>,
    pub safe: Seq<u8>,
    pub finalized: Seq<u8>,
}

impl View for ForkchoiceStateV1 {
    type V = ChainView;

    open spec fn view(&self) -> ChainView {
        ChainView {
            head: self.head_block_hash@,
            safe: self.safe_block_hash@,
            finalized: self.finalized_block_hash@,
        }
    }
}

/// A validity proof of one block.
#[derive(Clone, Debug, PartialEq, Eq)]
pub struct Proofs {
    pub evm_proof: Vec<u8>,
    pub state_proof: Vec<u8>,
}

/// A proof as mathematics sees it.
pub struct ProofsView {
    pub evm_proof: Seq<u8>,
    pub state_proof: Seq<u8>,
}

impl ProofsView {
    /// The bytes that go to the bridge as the proof: the EVM proof, then the
    /// state proof.
    pub open spec fn proof_data(self) -> Seq<u8> {
        self.evm_proof + self.state_proof
    }
}

impl View for Proofs {
    type V = ProofsView;

    open spec fn view(&self) -> ProofsView {
        ProofsView { evm_proof: self.evm_proof@, state_proof: self.state_proof@ }
    }
}

impl Proofs {
    /// The bytes that go to the bridge as the proof.
    pub fn proof_data(&self) -> (data: Vec<u8>)
        ensures
            data@ == self@.proof_data(),
    {
        let mut data: Vec<u8> = Vec::new();
        data.extend_from_slice(self.evm_proof.as_slice());
        data.extend_from_slice(self.state_proof.as_slice());
        data
    }
}

/// A message sent on the settlement chain that waits to be delivered on the
/// rollup chain.
#[derive(Clone, Debug, PartialEq, Eq)]
pub struct L1MessageBeacon {
    pub from: Address,
    pub to: Address,
    pub value: U256,
    pub fee: U256,
    pub calldata: Vec<u8>,
    pub timestamp: u64,
}

/// A message as mathematics sees it.
pub struct BeaconView {
    pub from: Seq<u8>,
    pub to: Seq<u8>,
    pub value: Seq<u8>,
    pub fee: Seq<u8>,
    pub calldata: Seq<u8>,
    pub timestamp: u64,
}

impl View for L1MessageBeacon {
    type V = BeaconView;

    open spec fn view(&self) -> BeaconView {
        BeaconView {
            from: self.from@,
            to: self.to@,
            value: self.value@,
            fee: self.fee@,
            calldata: self.calldata@,
            timestamp: self.timestamp,
        }
    }
}

/// The messages of a queue, first in first.
pub open spec fn beacons_of(queue: Seq<L1MessageBeacon>) -> Seq<BeaconView> {
    queue.map_values(|b: L1MessageBeacon| b@)
}

/// A log that the settlement chain's node returned.
#[derive(Clone, Debug, PartialEq, Eq)]
pub struct Log {
    pub topics: Vec<H256>,
    pub data: Vec<u8>,
    pub transaction_hash: Option<H256>,
}

/// A block of the rollup chain, as far as the steps read it.
#[derive(Clone, Copy, Debug, PartialEq, Eq)]
pub struct Block {
    pub hash: H256,
    pub parent_hash: H256,
    pub number: u64,
}

/// A signing key, the account that it controls, and the chain that it signs
/// for.
#[derive(Clone, Debug, PartialEq, Eq)]
pub struct LocalWallet {
    /// The secret scalar, 32 bytes, most significant first.
    pub private_key: Vec<u8>,
    pub address: Address,
    pub chain_id: u64,
}

/// A wallet as mathematics sees it.
pub struct WalletView {
    pub private_key: Seq<u8>,
    pub address: Seq<u8>,
    pub chain_id: u64,
}

impl View for LocalWallet {
    type V = WalletView;

    open spec fn view(&self) -> WalletView {
        WalletView {
            private_key: self.private_key@,
            address: self.address@,
            chain_id: self.chain_id,
        }
    }
}

impl LocalWallet {
    /// A copy of this wallet.
    pub fn duplicate(&self) -> (copy: LocalWallet)
        ensures
            copy@ == self@,
    {
        let private_key = self.private_key.clone();
        LocalWallet { private_key, address: self.address, chain_id: self.chain_id }
    }
}

/// A transaction to build, sign and send.
#[derive(Clone, Debug, PartialEq, Eq)]
pub struct TransactionRequest {
    /// The node that takes the transaction.
    pub node: String,
    /// The wallet that signs it.
    pub wallet: LocalWallet,
    pub to: Address,
    pub value: U256,
    pub calldata: Vec<u8>,
}

/// A transaction as mathematics sees it.
pub struct TransactionView {
    pub node: Seq<char>,
    pub wallet: WalletView,
    pub to: Seq<u8>,
    pub value: Seq<u8>,
    pub calldata: Seq<u8>,
}

impl View for TransactionRequest {
    type V = TransactionView;

    open spec fn view(&self) -> TransactionView {
        TransactionView {
            node: self.node@,
            wallet: self.wallet@,
            to: self.to@,
            value: self.value@,
            calldata: self.calldata@,
        }
    }
}

} // verus!

//! Sending a transaction: the sender's nonce, a gas limit and a gas price are
//! asked for, the transaction is signed and handed to the node, and its
//! receipt is awaited.
//!
//! This is a machine like the steps. Its caller performs each action on the
//! node that the request names and hands the outcome back as the next event,
//! until the action is `Done`.

use ethers_core::types::transaction::eip2718::TypedTransaction;
use vstd::prelude::*;
use crate::primitives::{Address, H256, U256};
use crate::rpc::{
    ETH_ESTIMATE_GAS, ETH_GAS_PRICE, ETH_GET_TRANSACTION_COUNT, ETH_GET_TRANSACTION_RECEIPT,
    ETH_SEND_RAW_TRANSACTION,
};
use crate::structs::{LocalWallet, TransactionRequest};

verus! {

/// The gas limit of a transaction whose gas the node cannot estimate.
pub const DEFAULT_GAS: u64 = 1_000_000;

/// The largest chain id that a signature can name: twice the chain id and
/// 38 more must fit in 64 bits.
pub const MAX_CHAIN_ID: u64 = 9_223_372_036_854_775_788;

/// The signed transaction, serialized: what the key's owner hands to a node
/// to have `to` called with `value` and `data` on the chain `chain_id`.
/// `None` where the key is no valid key.
pub uninterp spec fn signed_transaction(
    key: Seq<u8>,
    chain_id: u64,
    nonce: Seq<u8>,
    gas_price: Seq<u8>,
    gas: Seq<u8>,
    to: Seq<u8>,
    value: Seq<u8>,
    data: Seq<u8>,
) -> Option<Seq<u8>>;

/// Builds the wallet with `ethers_signers::LocalWallet::from_bytes` and the
/// transaction as an `ethers_core` `TransactionRequest`, signs it with
/// `sign_transaction_sync`, and serializes it with `rlp_signed`. Trusted: the
/// result depends on the arguments alone; the signature draws nothing from
/// chance, its nonce is derived from the key and the transaction. A key of
/// another length and a larger chain id are left out, since the calls do not
/// return for them.
#[verifier::external_body]
fn sign_transaction(
    wallet: &LocalWallet,
    nonce: &U256,
    gas_price: &U256,
    gas: &U256,
    to: &Address,
    value: &U256,
    data: &Vec<u8>,
) -> (raw: Option<Vec<u8>>)
    requires
        wallet.private_key@.len() == 32,
        wallet.chain_id <= MAX_CHAIN_ID,
    ensures
        match signed_transaction(
            wallet.private_key@,
            wallet.chain_id,
            nonce@,
            gas_price@,
            gas@,
            to@,
            value@,
            data@,
        ) {
            Some(bytes) => raw is Some && raw->0@ == bytes,
            None => raw is None,
        },
{
    let signer = ethers_signers::LocalWallet::from_bytes(&wallet.private_key).ok()?;
    let tx: TypedTransaction = ethers_core::types::TransactionRequest::new()
        .to(ethers_core::types::H160(to.bytes))
        .nonce(nonce.bytes)
        .gas_price(gas_price.bytes)
        .gas(gas.bytes)
        .value(value.bytes)
        .data(data.clone())
        .chain_id(wallet.chain_id)
        .into();
    let signature = signer.sign_transaction_sync(&tx).ok()?;
    Some(tx.rlp_signed(&signature).to_vec())
}

/// The status of a transaction that succeeded.
pub const STATUS_SUCCESS: u64 = 1;

/// How the sending of a transaction ended.
#[derive(Clone, Copy, Debug, PartialEq, Eq)]
pub enum TransactOutcome {
    /// The transaction is in a block and succeeded.
    Included,
    /// The transaction is in a block and failed, or nothing is known of its
    /// success.
    Reverted,
    /// The transaction could not be signed or sent, or no receipt came.
    Failed,
}

/// What the caller does next.
#[derive(Clone, Debug, PartialEq, Eq)]
pub enum TransactAction {
    /// Ask the node for the number of transactions that this account has
    /// sent.
    GetTransactionCount { address: Address },
    /// Ask the node how much gas the call takes.
    EstimateGas,
    /// Ask the node for the current gas price.
    GetGasPrice,
    /// Hand the signed transaction to the node.
    SendRawTransaction { raw: Vec<u8> },
    /// Ask the node for the receipt of the transaction of this hash.
    GetTransactionReceipt { hash: H256 },
    /// The sending is over.
    Done(TransactOutcome),
}

impl TransactAction {
    /// The method that the action calls, on the node that the request names.
    pub fn method(&self) -> (method: Option<&'static str>)
        ensures
            match self {
                TransactAction::GetTransactionCount { .. } => method matches Some(m) && m@
                    == ETH_GET_TRANSACTION_COUNT@,
                TransactAction::EstimateGas => method matches Some(m) && m@ == ETH_ESTIMATE_GAS@,
                TransactAction::GetGasPrice => method matches Some(m) && m@ == ETH_GAS_PRICE@,
                TransactAction::SendRawTransaction { .. } => method matches Some(m) && m@
                    == ETH_SEND_RAW_TRANSACTION@,
                TransactAction::GetTransactionReceipt { .. } => method matches Some(m) && m@
                    == ETH_GET_TRANSACTION_RECEIPT@,
                TransactAction::Done(_) => method is None,
            },
    {
        match self {
            TransactAction::GetTransactionCount { .. } => Some(ETH_GET_TRANSACTION_COUNT),
            TransactAction::EstimateGas => Some(ETH_ESTIMATE_GAS),
            TransactAction::GetGasPrice => Some(ETH_GAS_PRICE),
            TransactAction::SendRawTransaction { .. } => Some(ETH_SEND_RAW_TRANSACTION),
            TransactAction::GetTransactionReceipt { .. } => Some(ETH_GET_TRANSACTION_RECEIPT),
            TransactAction::Done(_) => None,
        }
    }
}

/// What the caller reports.
#[derive(Clone, Copy, Debug, PartialEq, Eq)]
pub enum TransactEvent {
    /// The sending begins.
    Begin,
    /// The number of transactions that the account has sent.
    Nonce(U256),
    /// The gas that the call takes.
    Gas(U256),
    /// The current gas price.
    GasPrice(U256),
    /// The node took the transaction, and this is its hash.
    Hash(H256),
    /// The transaction is in a block, and this is the status that its
    /// receipt shows, if it shows one.
    Receipt { status: Option<u64> },
    /// The transaction is in no block yet.
    NoReceipt,
    /// The call failed or ran out of time; while the receipt is awaited, the
    /// caller has waited long enough.
    Failed,
}

/// What the sending waits for.
#[derive(Clone, Copy, Debug, PartialEq, Eq)]
pub enum TransactPhase {
    /// Its beginning.
    Start,
    /// The sender's nonce.
    Nonce,
    /// The gas estimate.
    Gas,
    /// The gas price.
    GasPrice,
    /// The node's word that it took the transaction.
    Sending,
    /// The receipt.
    Receipt,
    /// Nothing: the sending is over.
    Finished,
}

/// How far the sending of one transaction has come.
#[derive(Clone, Debug, PartialEq, Eq)]
pub struct Transact {
    pub phase: TransactPhase,
    pub request: TransactionRequest,
    pub nonce: U256,
    pub gas: U256,
    pub gas_price: U256,
    /// The hash under which the node took the transaction.
    pub hash: H256,
}

/// Whether the wallet can sign: its key has 32 bytes, and its chain id is one
/// that a signature can name.
pub open spec fn can_sign(wallet: LocalWallet) -> bool {
    wallet.private_key@.len() == 32 && wallet.chain_id <= MAX_CHAIN_ID
}

/// The signed transaction that a request gives with the nonce, gas price and
/// gas limit at hand, if the wallet can sign it.
pub open spec fn signed_request(
    request: TransactionRequest,
    nonce: U256,
    gas_price: U256,
    gas: U256,
) -> Option<Seq<u8>> {
    if can_sign(request.wallet) {
        signed_transaction(
            request.wallet.private_key@,
            request.wallet.chain_id,
            nonce@,
            gas_price@,
            gas@,
            request.to@,
            request.value@,
            request.calldata@,
        )
    } else {
        None
    }
}

/// The sending ends here.
pub open spec fn ended(next: Transact, action: TransactAction, outcome: TransactOutcome) -> bool {
    next.phase == TransactPhase::Finished && action == TransactAction::Done(outcome)
}

/// One move of the sending of a transaction.
pub open spec fn transact_step(
    cursor: Transact,
    event: TransactEvent,
    next: Transact,
    action: TransactAction,
) -> bool {
    &&& next.request == cursor.request
    &&& match (cursor.phase, event) {
        (TransactPhase::Start, TransactEvent::Begin) => {
            &&& next.phase == TransactPhase::Nonce
            &&& action == (TransactAction::GetTransactionCount { address: cursor.request.wallet.address })
        },
        (TransactPhase::Nonce, TransactEvent::Nonce(nonce)) => {
            &&& next.phase == TransactPhase::Gas
            &&& next.nonce == nonce
            &&& action == TransactAction::EstimateGas
        },
        (TransactPhase::Gas, TransactEvent::Gas(gas)) => {
            &&& next.phase == TransactPhase::GasPrice
            &&& next.nonce == cursor.nonce
            &&& next.gas == gas
            &&& action == TransactAction::GetGasPrice
        },
        // Where the node cannot estimate the gas, the default is taken.
        (TransactPhase::Gas, TransactEvent::Failed) => {
            &&& next.phase == TransactPhase::GasPrice
            &&& next.nonce == cursor.nonce
            &&& next.gas.value() == DEFAULT_GAS
            &&& action == TransactAction::GetGasPrice
        },
        (TransactPhase::GasPrice, TransactEvent::GasPrice(gas_price)) => match signed_request(
            cursor.request,
            cursor.nonce,
            gas_price,
            cursor.gas,
        ) {
            Some(bytes) => {
                &&& next.phase == TransactPhase::Sending
                &&& action matches TransactAction::SendRawTransaction { raw } && raw@ == bytes
            },
            None => ended(next, action, TransactOutcome::Failed),
        },
        (TransactPhase::Sending, TransactEvent::Hash(hash)) => {
            &&& next.phase == TransactPhase::Receipt
            &&& next.hash == hash
            &&& action == (TransactAction::GetTransactionReceipt { hash })
        },
        (TransactPhase::Receipt, TransactEvent::Receipt { status }) => ended(
            next,
            action,
            if status == Some(STATUS_SUCCESS) {
                TransactOutcome::Included
            } else {
                TransactOutcome::Reverted
            },
        ),
        // The receipt is asked for until it is there or the caller gives up.
        (TransactPhase::Receipt, TransactEvent::NoReceipt) => {
            &&& next.phase == TransactPhase::Receipt
            &&& next.hash == cursor.hash
            &&& action == (TransactAction::GetTransactionReceipt { hash: cursor.hash })
        },
        _ => ended(next, action, TransactOutcome::Failed),
    }
}

impl Transact {
    /// The sending of `request`, about to begin.
    pub fn new(request: TransactionRequest) -> (cursor: Transact)
        ensures
            cursor.phase == TransactPhase::Start,
            cursor.request == request,
    {
        Transact {
            phase: TransactPhase::Start,
            request,
            nonce: U256::zero(),
            gas: U256::zero(),
            gas_price: U256::zero(),
            hash: H256::zero(),
        }
    }

    /// The signed transaction, with the nonce and gas limit at hand and the
    /// given gas price.
    fn sign(&self, gas_price: &U256) -> (raw: Option<Vec<u8>>)
        ensures
            match signed_request(self.request, self.nonce, *gas_price, self.gas) {
                Some(bytes) => raw is Some && raw->0@ == bytes,
                None => raw is None,
            },
    {
        if self.request.wallet.private_key.len() != 32 || self.request.wallet.chain_id > MAX_CHAIN_ID {
            return None;
        }
        sign_transaction(
            &self.request.wallet,
            &self.nonce,
            gas_price,
            &self.gas,
            &self.request.to,
            &self.request.value,
            &self.request.calldata,
        )
    }

    /// One move of the sending. It begins with the event `Begin` and is over
    /// when the action is `Done`.
    pub fn next(&mut self, event: TransactEvent) -> (action: TransactAction)
        ensures
            transact_step(*old(self), event, *final(self), action),
    {
        match (self.phase, event) {
            (TransactPhase::Start, TransactEvent::Begin) => {
                self.phase = TransactPhase::Nonce;
                TransactAction::GetTransactionCount { address: self.request.wallet.address }
            },
            (TransactPhase::Nonce, TransactEvent::Nonce(nonce)) => {
                self.phase = TransactPhase::Gas;
                self.nonce = nonce;
                TransactAction::EstimateGas
            },
            (TransactPhase::Gas, TransactEvent::Gas(gas)) => {
                self.phase = TransactPhase::GasPrice;
                self.gas = gas;
                TransactAction::GetGasPrice
            },
            (TransactPhase::Gas, TransactEvent::Failed) => {
                self.phase = TransactPhase::GasPrice;
                self.gas = U256::from_u64(DEFAULT_GAS);
                TransactAction::GetGasPrice
            },
            (TransactPhase::GasPrice, TransactEvent::GasPrice(gas_price)) => {
                match self.sign(&gas_price) {
                    Some(raw) => {
                        self.phase = TransactPhase::Sending;
                        self.gas_price = gas_price;
                        TransactAction::SendRawTransaction { raw }
                    },
                    None => {
                        self.phase = TransactPhase::Finished;
                        TransactAction::Done(TransactOutcome::Failed)
                    },
                }
            },
            (TransactPhase::Sending, TransactEvent::Hash(hash)) => {
                self.phase = TransactPhase::Receipt;
                self.hash = hash;
                TransactAction::GetTransactionReceipt { hash }
            },
            (TransactPhase::Receipt, TransactEvent::Receipt { status }) => {
                self.phase = TransactPhase::Finished;
                match status {
                    Some(STATUS_SUCCESS) => TransactAction::Done(TransactOutcome::Included),
                    _ => TransactAction::Done(TransactOutcome::Reverted),
                }
            },
            (TransactPhase::Receipt, TransactEvent::NoReceipt) => TransactAction::GetTransactionReceipt {
                hash: self.hash,
            },
            _ => {
                self.phase = TransactPhase::Finished;
                TransactAction::Done(TransactOutcome::Failed)
            },
        }
    }
}

} // verus!

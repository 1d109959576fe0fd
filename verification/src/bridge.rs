//! The bridge contract's interface, bit for bit: the topics of its three
//! events, the calls of its two functions, and what its logs and the calldata
//! of its transactions hold.

use vstd::prelude::*;
use vstd::string::StringSliceAdditionalSpecFns;
use crate::abi::{
    abi_decoding, abi_encoding, decode, encode, items_of, lemma_encoding_len, padding, AbiItem,
    AbiKind, AbiValue, MAX_ENCODING,
};
use crate::hashing::{event_topic, function_selector, is_keccak_of, keccak256, keccak256_digest};
use crate::primitives::{be_value, be_word, lemma_be_word_value, H256};
use crate::structs::{BeaconView, L1MessageBeacon};

verus! {

/// Emitted when a block header was submitted. It carries no data: the header
/// is in the calldata of the transaction that emitted it.
pub const BLOCK_SUBMITTED: &'static str = "BlockSubmitted()";

/// Emitted when a block was finalized. Its data is the block's hash.
pub const BLOCK_FINALIZED: &'static str = "BlockFinalized(bytes32)";

/// Emitted for a message to the rollup chain: sender, recipient, value, fee
/// and calldata.
pub const L1_MESSAGE_SENT: &'static str = "L1MessageSent(address,address,uint256,uint256,bytes)";

/// Submits a block's header.
pub const SUBMIT_BLOCK: &'static str = "submitBlock(bytes)";

/// Finalizes a block: its hash, a witness and the proof.
pub const FINALIZE_BLOCK: &'static str = "finalizeBlock(bytes32,bytes,bytes)";

/// The topics and selectors of the bridge, computed once.
#[derive(Clone, Copy, Debug, PartialEq, Eq)]
pub struct BridgeAbi {
    pub block_submitted: H256,
    pub block_finalized: H256,
    pub message_sent: H256,
    pub submit_block: [u8; 4],
    pub finalize_block: [u8; 4],
}

/// The calldata of `submitBlock(header_rlp)`.
pub open spec fn submit_block_call(selector: Seq<u8>, header_rlp: Seq<u8>) -> Seq<u8> {
    selector + abi_encoding(seq![AbiItem { kind: AbiKind::Bytes, bytes: header_rlp }])
}

/// The calldata of `finalizeBlock(block_hash, witness, proof)`.
pub open spec fn finalize_block_call(
    selector: Seq<u8>,
    block_hash: Seq<u8>,
    witness: Seq<u8>,
    proof: Seq<u8>,
) -> Seq<u8> {
    selector + abi_encoding(
        seq![
            AbiItem { kind: AbiKind::Word, bytes: block_hash },
            AbiItem { kind: AbiKind::Bytes, bytes: witness },
            AbiItem { kind: AbiKind::Bytes, bytes: proof },
        ],
    )
}

/// The length of the arguments of `submitBlock` as encoded, for a header of
/// `n` bytes.
pub open spec fn submit_block_len(n: nat) -> nat {
    64 + n + padding(n)
}

/// The length of the arguments of `finalizeBlock` as encoded, for a witness of
/// `w` bytes and a proof of `p` bytes.
pub open spec fn finalize_block_len(w: nat, p: nat) -> nat {
    160 + w + padding(w) + p + padding(p)
}

/// The header that the calldata of a `submitBlock` transaction carries: the
/// bytes from 68 on, as many as the word at 36 declares, or as many as there
/// are if it declares more. Calldata shorter than 68 bytes carries none.
pub open spec fn payload_of(input: Seq<u8>) -> Option<Seq<u8>> {
    if input.len() < 68 {
        None
    } else {
        let declared = be_value(input.subrange(36, 68));
        if 68 + declared <= input.len() {
            Some(input.subrange(68, 68 + declared as int))
        } else {
            Some(input.subrange(68, input.len() as int))
        }
    }
}

/// The kinds of the fields of an `L1MessageSent` log.
pub open spec fn message_kinds() -> Seq<AbiKind> {
    seq![AbiKind::Address, AbiKind::Address, AbiKind::Uint, AbiKind::Uint, AbiKind::Bytes]
}

/// The message that the data of an `L1MessageSent` log holds.
pub open spec fn message_of(data: Seq<u8>) -> Option<BeaconView> {
    match abi_decoding(message_kinds(), data) {
        None => None,
        Some(items) => Some(
            BeaconView {
                from: items[0].bytes,
                to: items[1].bytes,
                value: items[2].bytes,
                fee: items[3].bytes,
                calldata: items[4].bytes,
                timestamp: 0,
            },
        ),
    }
}

impl BridgeAbi {
    /// Every topic and selector is the hash of its signature.
    pub open spec fn wf(&self) -> bool {
        &&& is_keccak_of(self.block_submitted, BLOCK_SUBMITTED.spec_bytes())
        &&& is_keccak_of(self.block_finalized, BLOCK_FINALIZED.spec_bytes())
        &&& is_keccak_of(self.message_sent, L1_MESSAGE_SENT.spec_bytes())
        &&& self.submit_block@ == keccak256_digest(SUBMIT_BLOCK.spec_bytes()).take(4)
        &&& self.finalize_block@ == keccak256_digest(FINALIZE_BLOCK.spec_bytes()).take(4)
    }

    pub fn new() -> (abi: BridgeAbi)
        ensures
            abi.wf(),
    {
        BridgeAbi {
            block_submitted: event_topic(BLOCK_SUBMITTED),
            block_finalized: event_topic(BLOCK_FINALIZED),
            message_sent: event_topic(L1_MESSAGE_SENT),
            submit_block: function_selector(SUBMIT_BLOCK),
            finalize_block: function_selector(FINALIZE_BLOCK),
        }
    }

    /// The calldata of `submitBlock(header_rlp)`, or `None` where the header is
    /// too long to encode.
    pub fn encode_submit_block(&self, header_rlp: Vec<u8>) -> (out: Option<Vec<u8>>)
        ensures
            out is Some <==> submit_block_len(header_rlp@.len()) <= MAX_ENCODING,
            out is Some ==> out->0@ == submit_block_call(self.submit_block@, header_rlp@),
    {
        let ghost items = seq![AbiItem { kind: AbiKind::Bytes, bytes: header_rlp@ }];
        let values = vec![AbiValue::Bytes(header_rlp)];
        proof {
            assert(items_of(values@) =~= items);
            lemma_encoding_len(items, 0);
            reveal_with_fuel(crate::abi::tails_len, 2);
        }
        match encode(&values) {
            None => None,
            Some(arguments) => {
                let mut out: Vec<u8> = Vec::new();
                out.extend_from_slice(self.submit_block.as_slice());
                out.extend_from_slice(arguments.as_slice());
                Some(out)
            },
        }
    }

    /// The calldata of `finalizeBlock(block_hash, witness, proof)`, or `None`
    /// where witness and proof are too long to encode.
    pub fn encode_finalize_block(&self, block_hash: H256, witness: Vec<u8>, proof: Vec<u8>) -> (out:
        Option<Vec<u8>>)
        ensures
            out is Some <==> finalize_block_len(witness@.len(), proof@.len()) <= MAX_ENCODING,
            out is Some ==> out->0@ == finalize_block_call(
                self.finalize_block@,
                block_hash@,
                witness@,
                proof@,
            ),
    {
        let ghost items = seq![
            AbiItem { kind: AbiKind::Word, bytes: block_hash@ },
            AbiItem { kind: AbiKind::Bytes, bytes: witness@ },
            AbiItem { kind: AbiKind::Bytes, bytes: proof@ },
        ];
        let values = vec![AbiValue::Word(block_hash), AbiValue::Bytes(witness), AbiValue::Bytes(proof)];
        proof {
            assert(items_of(values@) =~= items);
            lemma_encoding_len(items, 0);
            reveal_with_fuel(crate::abi::tails_len, 4);
        }
        match encode(&values) {
            None => None,
            Some(arguments) => {
                let mut out: Vec<u8> = Vec::new();
                out.extend_from_slice(self.finalize_block.as_slice());
                out.extend_from_slice(arguments.as_slice());
                Some(out)
            },
        }
    }
}

/// The number that the 32 bytes from `start` on spell, or `None` where it is
/// too large for a `usize`.
fn read_length(data: &[u8], start: usize) -> (out: Option<usize>)
    requires
        start + 32 <= data@.len(),
    ensures
        match out {
            Some(n) => n == be_value(data@.subrange(start as int, start + 32)),
            None => be_value(data@.subrange(start as int, start + 32)) > usize::MAX,
        },
{
    let ghost word = data@.subrange(start as int, start + 32);
    let len = data.len();
    let mut value: usize = 0;
    let mut i: usize = 0;
    while i < 32
        invariant
            i <= 32,
            len == data@.len(),
            start + 32 <= len,
            word == data@.subrange(start as int, start + 32),
            value == be_value(word.take(i as int)),
        decreases 32 - i,
    {
        let byte = data[start + i];
        proof {
            assert(word.take(i + 1).drop_last() =~= word.take(i as int));
        }
        if value > (usize::MAX - byte as usize) / 256 {
            proof {
                lemma_be_value_grows(word, i + 1);
            }
            return None;
        }
        value = value * 256 + byte as usize;
        i += 1;
    }
    assert(word.take(32) =~= word);
    Some(value)
}

/// A number spelled by more bytes of one string is no smaller.
pub proof fn lemma_be_value_grows(b: Seq<u8>, n: int)
    requires
        0 <= n <= b.len(),
    ensures
        be_value(b.take(n)) <= be_value(b),
    decreases b.len() - n,
{
    if n < b.len() {
        assert(b.take(n + 1).drop_last() =~= b.take(n));
        lemma_be_value_grows(b, n + 1);
    } else {
        assert(b.take(n) =~= b);
    }
}

/// The header that the calldata of a `submitBlock` transaction carries.
pub fn submitted_payload(input: &[u8]) -> (out: Option<Vec<u8>>)
    ensures
        out is Some <==> payload_of(input@) is Some,
        out is Some ==> out->0@ == payload_of(input@)->0,
{
    let len = input.len();
    if len < 68 {
        return None;
    }
    let end: usize = match read_length(input, 36) {
        None => len,
        Some(declared) => if declared <= len - 68 {
            68 + declared
        } else {
            len
        },
    };
    let mut out: Vec<u8> = Vec::new();
    let mut i: usize = 68;
    while i < end
        invariant
            68 <= i <= end <= len,
            len == input@.len(),
            out@ == input@.subrange(68, i as int),
        decreases end - i,
    {
        out.push(input[i]);
        i += 1;
    }
    Some(out)
}

/// The hash of the block whose header a `submitBlock` transaction carries.
pub fn submitted_block_hash(input: &[u8]) -> (out: Option<H256>)
    ensures
        out is Some <==> payload_of(input@) is Some,
        out is Some ==> is_keccak_of(out->0, payload_of(input@)->0),
{
    match submitted_payload(input) {
        None => None,
        Some(payload) => Some(keccak256(payload.as_slice())),
    }
}

/// The hash that the data of a `BlockFinalized` log holds: the data itself,
/// which must be 32 bytes long.
pub fn finalized_block_hash(data: &[u8]) -> (out: Option<H256>)
    ensures
        out is Some <==> data@.len() == 32,
        out is Some ==> out->0@ == data@,
{
    H256::from_slice(data)
}

/// The message that the data of an `L1MessageSent` log holds, or `None` where
/// the data does not decode.
pub fn decode_message(data: &[u8]) -> (out: Option<L1MessageBeacon>)
    ensures
        out is Some <==> message_of(data@) is Some,
        out is Some ==> out->0@ == message_of(data@)->0,
{
    let kinds = vec![AbiKind::Address, AbiKind::Address, AbiKind::Uint, AbiKind::Uint, AbiKind::Bytes];
    match decode(&kinds, data) {
        None => None,
        Some(mut values) => {
            let ghost items = abi_decoding(message_kinds(), data@)->0;
            assert(items_of(values@) == items);
            let calldata = values.pop();
            match (&values[0], &values[1], &values[2], &values[3], calldata) {
                (
                    AbiValue::Address(from),
                    AbiValue::Address(to),
                    AbiValue::Uint(value),
                    AbiValue::Uint(fee),
                    Some(AbiValue::Bytes(calldata)),
                ) => Some(
                    L1MessageBeacon {
                        from: *from,
                        to: *to,
                        value: *value,
                        fee: *fee,
                        calldata,
                        timestamp: 0,
                    },
                ),
                _ => {
                    assert(false);
                    None
                },
            }
        },
    }
}

/// Calldata made by `submitBlock` carries the header it was made from.
pub proof fn lemma_submit_block_round_trip(selector: Seq<u8>, header_rlp: Seq<u8>)
    requires
        selector.len() == 4,
        submit_block_len(header_rlp.len()) <= MAX_ENCODING,
    ensures
        payload_of(submit_block_call(selector, header_rlp)) == Some(header_rlp),
{
    let call = submit_block_call(selector, header_rlp);
    let n = header_rlp.len();
    reveal_with_fuel(crate::abi::tails, 2);
    reveal_with_fuel(crate::abi::heads, 2);
    assert(call.subrange(36, 68) =~= be_word(n as u64));
    lemma_be_word_value(n as u64);
}

} // verus!

//! The contract ABI's byte layout for the four kinds of value that the bridge
//! uses: what a list of values encodes to, and what a byte string decodes to.

use ethers_core::abi::{ParamType, Token};
use vstd::prelude::*;
use crate::primitives::{be_value, be_word, zeros, Address, H256, U256};

verus! {

/// The kind of an ABI value.
#[derive(Clone, Copy, Debug, PartialEq, Eq)]
pub enum AbiKind {
    /// `address`: 20 bytes.
    Address,
    /// `uint256`: 32 bytes, most significant first.
    Uint,
    /// `bytes32`: 32 bytes.
    Word,
    /// `bytes`: any number of bytes.
    Bytes,
}

/// An ABI value.
#[derive(Clone, Debug, PartialEq, Eq)]
pub enum AbiValue {
    Address(Address),
    Uint(U256),
    Word(H256),
    Bytes(Vec<u8>),
}

/// An ABI value as mathematics sees it: its kind and its bytes.
pub struct AbiItem {
    pub kind: AbiKind,
    pub bytes: Seq<u8>,
}

impl AbiItem {
    /// The bytes have the length that the kind fixes.
    pub open spec fn wf(self) -> bool {
        match self.kind {
            AbiKind::Address => self.bytes.len() == 20,
            AbiKind::Uint => self.bytes.len() == 32,
            AbiKind::Word => self.bytes.len() == 32,
            AbiKind::Bytes => true,
        }
    }
}

impl View for AbiValue {
    type V = AbiItem;

    open spec fn view(&self) -> AbiItem {
        match self {
            AbiValue::Address(a) => AbiItem { kind: AbiKind::Address, bytes: a@ },
            AbiValue::Uint(u) => AbiItem { kind: AbiKind::Uint, bytes: u@ },
            AbiValue::Word(w) => AbiItem { kind: AbiKind::Word, bytes: w@ },
            AbiValue::Bytes(b) => AbiItem { kind: AbiKind::Bytes, bytes: b@ },
        }
    }
}

/// The items that a list of values stands for.
pub open spec fn items_of(values: Seq<AbiValue>) -> Seq<AbiItem> {
    values.map_values(|v: AbiValue| v@)
}

/// The number of zero bytes that fill `n` bytes up to a multiple of 32.
pub open spec fn padding(n: nat) -> nat {
    ((32 - n % 32) % 32) as nat
}

/// What an item adds to the tail of an encoding: nothing for the fixed-size
/// kinds; for `bytes` the length as a word, the bytes, and the padding.
pub open spec fn tail_of(item: AbiItem) -> Seq<u8> {
    match item.kind {
        AbiKind::Bytes => be_word(item.bytes.len() as u64) + item.bytes + zeros(
            padding(item.bytes.len()),
        ),
        _ => Seq::empty(),
    }
}

/// The word that an item puts into the head of an encoding: itself, padded on
/// the left for an address; for `bytes` the offset at which its tail begins.
pub open spec fn head_of(item: AbiItem, offset: nat) -> Seq<u8> {
    match item.kind {
        AbiKind::Address => zeros(12) + item.bytes,
        AbiKind::Uint => item.bytes,
        AbiKind::Word => item.bytes,
        AbiKind::Bytes => be_word(offset as u64),
    }
}

/// The tails of all items, in order.
pub open spec fn tails(items: Seq<AbiItem>) -> Seq<u8>
    decreases items.len(),
{
    if items.len() == 0 {
        Seq::empty()
    } else {
        tails(items.drop_last()) + tail_of(items.last())
    }
}

/// The heads of all items, in order, where the tails begin at `base`.
pub open spec fn heads(items: Seq<AbiItem>, base: nat) -> Seq<u8>
    decreases items.len(),
{
    if items.len() == 0 {
        Seq::empty()
    } else {
        heads(items.drop_last(), base) + head_of(
            items.last(),
            base + tails(items.drop_last()).len(),
        )
    }
}

/// The encoding of a list of items: one head word each, then the tails.
pub open spec fn abi_encoding(items: Seq<AbiItem>) -> Seq<u8> {
    heads(items, 32 * items.len()) + tails(items)
}

/// The longest encoding that the encoder produces: it counts in 32 bits.
pub const MAX_ENCODING: u64 = 0xffff_ffff;

/// The 32 bytes at `offset`, if `data` reaches that far.
pub open spec fn word_at(data: Seq<u8>, offset: int) -> Option<Seq<u8>> {
    if 0 <= offset && offset + 32 <= data.len() {
        Some(data.subrange(offset, offset + 32))
    } else {
        None
    }
}

/// The number in a word that holds an offset or a length: its last four
/// bytes, if the 28 before them are zero.
pub open spec fn small_value(word: Seq<u8>) -> Option<nat> {
    if word.len() == 32 && word.subrange(0, 28) == zeros(28) {
        Some(be_value(word.subrange(28, 32)))
    } else {
        None
    }
}

/// The item of the given kind whose head word stands at `offset` in `data`.
pub open spec fn decoded_item(kind: AbiKind, data: Seq<u8>, offset: int) -> Option<AbiItem> {
    match word_at(data, offset) {
        None => None,
        Some(word) => match kind {
            AbiKind::Address => Some(AbiItem { kind, bytes: word.subrange(12, 32) }),
            AbiKind::Uint => Some(AbiItem { kind, bytes: word }),
            AbiKind::Word => Some(AbiItem { kind, bytes: word }),
            AbiKind::Bytes => match small_value(word) {
                None => None,
                Some(at) => match word_at(data, at as int) {
                    None => None,
                    Some(length_word) => match small_value(length_word) {
                        None => None,
                        Some(len) => if at + 32 + len <= data.len() {
                            Some(AbiItem { kind, bytes: data.subrange(at as int + 32, at as int + 32 + len as int) })
                        } else {
                            None
                        },
                    },
                },
            },
        },
    }
}

/// The items of the given kinds that `data` decodes to, if every one of them
/// can be read. Bytes that no item refers to are ignored.
pub open spec fn abi_decoding(kinds: Seq<AbiKind>, data: Seq<u8>) -> Option<Seq<AbiItem>> {
    if forall|i: int| 0 <= i < kinds.len() ==> (#[trigger] decoded_item(kinds[i], data, 32 * i))
        is Some {
        Some(Seq::new(kinds.len(), |i: int| decoded_item(kinds[i], data, 32 * i)->0))
    } else {
        None
    }
}

/// Calls `ethers_core::abi::encode` on the values, each as the token of its
/// kind. Trusted: the result is the head-and-tail layout that `abi_encoding`
/// states. The encoder counts lengths and offsets in 32 bits, so longer
/// encodings are left out.
#[verifier::external_body]
fn encode_tokens(values: &Vec<AbiValue>) -> (out: Vec<u8>)
    requires
        abi_encoding(items_of(values@)).len() <= MAX_ENCODING,
    ensures
        out@ == abi_encoding(items_of(values@)),
{
    let tokens: Vec<Token> = values.iter().map(|v| match v {
        AbiValue::Address(a) => Token::Address(a.bytes.into()),
        AbiValue::Uint(u) => Token::Uint(u.bytes.into()),
        AbiValue::Word(w) => Token::FixedBytes(w.bytes.to_vec()),
        AbiValue::Bytes(b) => Token::Bytes(b.clone()),
    }).collect();
    ethers_core::abi::encode(&tokens)
}

/// Calls `ethers_core::abi::decode` with the parameter type of each kind.
/// Trusted: it succeeds exactly where `abi_decoding` does, and returns the
/// items that `abi_decoding` states. The decoder adds offsets and lengths of
/// up to 32 bits in `usize`; this is stated for machines on which such sums
/// cannot overflow, those with addresses of 64 bits.
#[verifier::external_body]
fn decode_tokens(kinds: &Vec<AbiKind>, data: &[u8]) -> (out: Option<Vec<AbiValue>>)
    ensures
        match abi_decoding(kinds@, data@) {
            Some(items) => out is Some && items_of(out->0@) == items,
            None => out is None,
        },
{
    let types: Vec<ParamType> = kinds.iter().map(|k| match k {
        AbiKind::Address => ParamType::Address,
        AbiKind::Uint => ParamType::Uint(256),
        AbiKind::Word => ParamType::FixedBytes(32),
        AbiKind::Bytes => ParamType::Bytes,
    }).collect();
    ethers_core::abi::decode(&types, data).ok()?.into_iter().map(|t| Some(match t {
        Token::Address(a) => AbiValue::Address(Address { bytes: a.0 }),
        Token::Uint(u) => AbiValue::Uint(U256 { bytes: u.into() }),
        Token::FixedBytes(b) => AbiValue::Word(H256 { bytes: b.try_into().ok()? }),
        Token::Bytes(b) => AbiValue::Bytes(b),
        _ => return None,
    })).collect()
}

/// The length of the tails of `items`.
pub open spec fn tails_len(items: Seq<AbiItem>) -> nat
    decreases items.len(),
{
    if items.len() == 0 {
        0
    } else {
        tails_len(items.drop_last()) + match items.last().kind {
            AbiKind::Bytes => 32 + items.last().bytes.len() + padding(items.last().bytes.len()),
            _ => 0,
        }
    }
}

/// An encoding is as long as its head words and its tails together.
pub proof fn lemma_encoding_len(items: Seq<AbiItem>, base: nat)
    requires
        forall|i: int| 0 <= i < items.len() ==> (#[trigger] items[i]).wf(),
    ensures
        heads(items, base).len() == 32 * items.len(),
        tails(items).len() == tails_len(items),
        abi_encoding(items).len() == 32 * items.len() + tails_len(items),
    decreases items.len(),
{
    if items.len() > 0 {
        let front = items.drop_last();
        lemma_encoding_len(front, base);
        lemma_encoding_len(front, 32 * items.len());
    }
}

/// The tails of a longer list are no shorter.
pub proof fn lemma_tails_len_grows(items: Seq<AbiItem>, n: int)
    requires
        0 <= n <= items.len(),
    ensures
        tails_len(items.take(n)) <= tails_len(items),
    decreases items.len() - n,
{
    if n < items.len() {
        lemma_tails_len_grows(items, n + 1);
        assert(items.take(n + 1).drop_last() =~= items.take(n));
    } else {
        assert(items.take(n) =~= items);
    }
}

/// Every value stands for a well-formed item.
pub proof fn lemma_items_wf(values: Seq<AbiValue>)
    ensures
        forall|i: int| 0 <= i < items_of(values).len() ==> (#[trigger] items_of(values)[i]).wf(),
{
}

/// Whether the encoding of `values` is short enough for the encoder.
pub fn encoding_fits(values: &Vec<AbiValue>) -> (fits: bool)
    ensures
        fits == (abi_encoding(items_of(values@)).len() <= MAX_ENCODING),
{
    let ghost items = items_of(values@);
    proof {
        lemma_items_wf(values@);
        lemma_encoding_len(items, 0);
    }
    let n = values.len();
    if n > 0x7ff_ffff {
        return false;
    }
    let mut total: u64 = 32 * (n as u64);
    let mut i: usize = 0;
    while i < n
        invariant
            i <= n,
            n == values@.len(),
            n <= 0x7ff_ffff,
            items == items_of(values@),
            abi_encoding(items).len() == 32 * n + tails_len(items),
            total == 32 * n + tails_len(items.take(i as int)),
            total <= MAX_ENCODING,
        decreases n - i,
    {
        proof {
            lemma_tails_len_grows(items, i + 1);
            assert(items.take(i + 1).drop_last() =~= items.take(i as int));
        }
        match &values[i] {
            AbiValue::Bytes(b) => {
                let len = b.len();
                if len > 0xffff_ffff {
                    return false;
                }
                let rest: u64 = (len % 32) as u64;
                let pad: u64 = (32 - rest) % 32;
                let tail: u64 = 32 + len as u64 + pad;
                if tail > MAX_ENCODING - total {
                    return false;
                }
                total = total + tail;
            },
            _ => {},
        }
        i += 1;
    }
    assert(items.take(n as int) =~= items);
    true
}

/// The ABI encoding of `values`, or `None` where it would be longer than
/// `MAX_ENCODING` bytes.
pub fn encode(values: &Vec<AbiValue>) -> (out: Option<Vec<u8>>)
    ensures
        out is Some <==> abi_encoding(items_of(values@)).len() <= MAX_ENCODING,
        out is Some ==> out->0@ == abi_encoding(items_of(values@)),
{
    if encoding_fits(values) {
        Some(encode_tokens(values))
    } else {
        None
    }
}

/// The values of the given kinds that `data` holds, or `None` where one of
/// them cannot be read.
pub fn decode(kinds: &Vec<AbiKind>, data: &[u8]) -> (out: Option<Vec<AbiValue>>)
    ensures
        out is Some <==> abi_decoding(kinds@, data@) is Some,
        out is Some ==> items_of(out->0@) == abi_decoding(kinds@, data@)->0,
{
    decode_tokens(kinds, data)
}

/// The kinds of the given items.
pub open spec fn kinds_of(items: Seq<AbiItem>) -> Seq<AbiKind> {
    items.map_values(|item: AbiItem| item.kind)
}

/// A word that holds a number below 2^32 reads as that number.
pub proof fn lemma_small_value_of_word(n: nat)
    requires
        n <= MAX_ENCODING,
    ensures
        be_word(n as u64).len() == 32,
        small_value(be_word(n as u64)) == Some(n),
{
    let m = n as u64;
    let word = be_word(m);
    assert((m >> 56) as u8 == 0 && (m >> 48) as u8 == 0 && (m >> 40) as u8 == 0 && (m >> 32) as u8 == 0)
        by (bit_vector)
        requires
            m <= 0xffff_ffff,
    ;
    assert(word.subrange(0, 28) =~= zeros(28));
    let low = word.subrange(28, 32);
    let l3 = low.drop_last();
    let l2 = l3.drop_last();
    let l1 = l2.drop_last();
    let l0 = l1.drop_last();
    assert(be_value(l0) == 0);
    assert(be_value(l2) == be_value(l1) * 256 + (m >> 16) as u8 as nat);
    assert(be_value(low) == be_value(l3) * 256 + m as u8 as nat);
    assert(m == ((((m >> 24) as u8 as u64) * 256 + ((m >> 16) as u8 as u64)) * 256 + ((m >> 8) as u8 as u64))
        * 256 + (m as u8 as u64)) by (bit_vector)
        requires
            m <= 0xffff_ffff,
    ;
}

/// The head word of the item at `i` stands at `32 * i`.
pub proof fn lemma_head_at(items: Seq<AbiItem>, base: nat, i: int)
    requires
        forall|j: int| 0 <= j < items.len() ==> (#[trigger] items[j]).wf(),
        0 <= i < items.len(),
    ensures
        heads(items, base).len() == 32 * items.len(),
        heads(items, base).subrange(32 * i, 32 * i + 32) == head_of(
            items[i],
            base + tails(items.take(i)).len(),
        ),
    decreases items.len(),
{
    let front = items.drop_last();
    lemma_encoding_len(front, base);
    lemma_encoding_len(items, base);
    if i < items.len() - 1 {
        lemma_head_at(front, base, i);
        assert(front.take(i) =~= items.take(i));
        assert(heads(items, base).subrange(32 * i, 32 * i + 32) =~= heads(front, base).subrange(
            32 * i,
            32 * i + 32,
        ));
    }
}

/// The tail of the item at `i` stands where the tails of the items before it
/// end.
pub proof fn lemma_tail_at(items: Seq<AbiItem>, i: int)
    requires
        0 <= i < items.len(),
    ensures
        tails(items.take(i)).len() + tail_of(items[i]).len() <= tails(items).len(),
        tails(items).subrange(
            tails(items.take(i)).len() as int,
            (tails(items.take(i)).len() + tail_of(items[i]).len()) as int,
        ) == tail_of(items[i]),
    decreases items.len(),
{
    let front = items.drop_last();
    if i < items.len() - 1 {
        lemma_tail_at(front, i);
        assert(front.take(i) =~= items.take(i));
    }
}

/// What was encoded is what decodes: from the encoding of well-formed items,
/// the items of their kinds are read back.
pub proof fn lemma_decoding_of_encoding(items: Seq<AbiItem>)
    requires
        forall|j: int| 0 <= j < items.len() ==> (#[trigger] items[j]).wf(),
        abi_encoding(items).len() <= MAX_ENCODING,
    ensures
        abi_decoding(kinds_of(items), abi_encoding(items)) == Some(items),
{
    let n = items.len();
    let data = abi_encoding(items);
    let kinds = kinds_of(items);
    let tail = tails(items);
    lemma_encoding_len(items, 32 * n);
    assert forall|i: int| 0 <= i < n implies (#[trigger] decoded_item(kinds[i], data, 32 * i)) == Some(
        items[i],
    ) by {
        let item = items[i];
        lemma_head_at(items, 32 * n, i);
        lemma_tail_at(items, i);
        let start = tails(items.take(i)).len() as int;
        let offset = 32 * n + start;
        let word = data.subrange(32 * i, 32 * i + 32);
        assert(word == head_of(item, offset as nat));
        match item.kind {
            AbiKind::Address => {
                assert(word.subrange(12, 32) =~= item.bytes);
            },
            AbiKind::Uint => {},
            AbiKind::Word => {},
            AbiKind::Bytes => {
                let len = item.bytes.len() as int;
                let whole = tail_of(item);
                lemma_small_value_of_word(offset as nat);
                lemma_small_value_of_word(len as nat);
                assert(data.subrange(offset, offset + whole.len()) =~= tail.subrange(
                    start,
                    start + whole.len(),
                ));
                assert(data.subrange(offset, offset + 32) =~= whole.subrange(0, 32));
                assert(whole.subrange(0, 32) =~= be_word(len as u64));
                assert(data.subrange(offset + 32, offset + 32 + len) =~= whole.subrange(32, 32 + len));
                assert(whole.subrange(32, 32 + len) =~= item.bytes);
            },
        }
    }
}

} // verus!

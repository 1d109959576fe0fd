//! Fixed-width byte values of the two chains: hashes, account addresses and
//! 256-bit words, each held as big-endian bytes.

use vstd::prelude::*;

verus! {

/// `n` zero bytes.
pub open spec fn zeros(n: nat) -> Seq<u8> {
    Seq::new(n, |i: int| 0u8)
}

/// Whether two byte arrays of one length hold the same bytes.
pub fn bytes_equal<const N: usize>(a: &[u8; N], b: &[u8; N]) -> (r: bool)
    ensures
        r == (a@ == b@),
{
    let mut i: usize = 0;
    while i < N
        invariant
            i <= N,
            forall|j: int| 0 <= j < i ==> a@[j] == b@[j],
        decreases N - i,
    {
        if a[i] != b[i] {
            return false;
        }
        i += 1;
    }
    assert(a@ =~= b@);
    true
}

/// Whether every byte of the array is zero.
pub fn bytes_all_zero<const N: usize>(a: &[u8; N]) -> (r: bool)
    ensures
        r == (a@ == zeros(N as nat)),
{
    let mut i: usize = 0;
    while i < N
        invariant
            i <= N,
            forall|j: int| 0 <= j < i ==> a@[j] == 0u8,
        decreases N - i,
    {
        if a[i] != 0 {
            return false;
        }
        i += 1;
    }
    assert(a@ =~= zeros(N as nat));
    true
}

/// Copies `data[start .. start + N]` into `out`.
pub fn fill_from_slice<const N: usize>(out: &mut [u8; N], data: &[u8], start: usize)
    requires
        start + N <= data@.len(),
    ensures
        final(out)@ == data@.subrange(start as int, start + N),
{
    let len = data.len();
    let mut i: usize = 0;
    while i < N
        invariant
            i <= N,
            start + N <= len,
            len == data@.len(),
            forall|j: int| 0 <= j < i ==> out@[j] == data@[start + j],
        decreases N - i,
    {
        out[i] = data[start + i];
        i += 1;
    }
}

/// Appends the bytes of `a` to `out`.
pub fn push_bytes<const N: usize>(out: &mut Vec<u8>, a: &[u8; N])
    ensures
        final(out)@ == old(out)@ + a@,
{
    let ghost before = out@;
    let mut i: usize = 0;
    while i < N
        invariant
            i <= N,
            out@ == before + a@.take(i as int),
        decreases N - i,
    {
        out.push(a[i]);
        i += 1;
    }
}

/// A 32-byte hash: of a block, of a transaction, or an event topic.
#[derive(Clone, Copy, Debug, PartialEq, Eq, Hash)]
pub struct H256 {
    pub bytes: [u8; 32],
}

impl View for H256 {
    type V = Seq<u8>;

    open spec fn view(&self) -> Seq<u8> {
        self.bytes@
    }
}

impl H256 {
    /// The hash of 32 zero bytes, which stands for "not set".
    pub fn zero() -> (h: H256)
        ensures
            h@ == zeros(32),
    {
        let h = H256 { bytes: [0u8; 32] };
        h
    }

    pub fn is_zero(&self) -> (r: bool)
        ensures
            r == (self@ == zeros(32)),
    {
        bytes_all_zero(&self.bytes)
    }

    /// Equality of hashes, byte by byte.
    pub fn same(&self, other: &H256) -> (r: bool)
        ensures
            r == (*self == *other),
            r == (self@ == other@),
    {
        let r = bytes_equal(&self.bytes, &other.bytes);
        proof {
            if r {
                assert(self.bytes =~= other.bytes);
            }
        }
        r
    }

    /// The hash held in `data`, which must be exactly 32 bytes long.
    pub fn from_slice(data: &[u8]) -> (r: Option<H256>)
        ensures
            r is Some <==> data@.len() == 32,
            r is Some ==> r->0@ == data@,
    {
        if data.len() != 32 {
            return None;
        }
        let mut bytes = [0u8; 32];
        fill_from_slice(&mut bytes, data, 0);
        Some(H256 { bytes })
    }

    pub fn to_vec(&self) -> (v: Vec<u8>)
        ensures
            v@ == self@,
    {
        let mut v: Vec<u8> = Vec::new();
        push_bytes(&mut v, &self.bytes);
        v
    }
}

/// A 20-byte account or contract address.
#[derive(Clone, Copy, Debug, PartialEq, Eq, Hash)]
pub struct Address {
    pub bytes: [u8; 20],
}

impl View for Address {
    type V = Seq<u8>;

    open spec fn view(&self) -> Seq<u8> {
        self.bytes@
    }
}

impl Address {
    pub fn zero() -> (a: Address)
        ensures
            a@ == zeros(20),
    {
        let a = Address { bytes: [0u8; 20] };
        a
    }

    pub fn same(&self, other: &Address) -> (r: bool)
        ensures
            r == (*self == *other),
            r == (self@ == other@),
    {
        let r = bytes_equal(&self.bytes, &other.bytes);
        proof {
            if r {
                assert(self.bytes =~= other.bytes);
            }
        }
        r
    }

    /// The address held in `data`, which must be exactly 20 bytes long.
    pub fn from_slice(data: &[u8]) -> (r: Option<Address>)
        ensures
            r is Some <==> data@.len() == 20,
            r is Some ==> r->0@ == data@,
    {
        if data.len() != 20 {
            return None;
        }
        let mut bytes = [0u8; 20];
        fill_from_slice(&mut bytes, data, 0);
        Some(Address { bytes })
    }
}

/// An unsigned 256-bit integer, most significant byte first.
#[derive(Clone, Copy, Debug, PartialEq, Eq, Hash)]
pub struct U256 {
    pub bytes: [u8; 32],
}

impl View for U256 {
    type V = Seq<u8>;

    open spec fn view(&self) -> Seq<u8> {
        self.bytes@
    }
}

/// The number that `b` spells, most significant byte first.
pub open spec fn be_value(b: Seq<u8>) -> nat
    decreases b.len(),
{
    if b.len() == 0 {
        0
    } else {
        be_value(b.drop_last()) * 256 + b.last() as nat
    }
}

/// The 32-byte word that spells `n`, most significant byte first.
pub open spec fn be_word(n: u64) -> Seq<u8> {
    zeros(24) + seq![
        (n >> 56) as u8,
        (n >> 48) as u8,
        (n >> 40) as u8,
        (n >> 32) as u8,
        (n >> 24) as u8,
        (n >> 16) as u8,
        (n >> 8) as u8,
        n as u8,
    ]
}

impl U256 {
    pub fn zero() -> (u: U256)
        ensures
            u@ == zeros(32),
            u.value() == 0,
    {
        let u = U256 { bytes: [0u8; 32] };
        assert(u@ =~= zeros(32));
        proof {
            lemma_be_value_zeros(32);
        }
        u
    }

    /// The number that this word holds.
    pub open spec fn value(&self) -> nat {
        be_value(self@)
    }

    /// The word that holds `n`.
    pub fn from_u64(n: u64) -> (u: U256)
        ensures
            u@ == be_word(n),
            u.value() == n,
    {
        let mut bytes = [0u8; 32];
        bytes[24] = (n >> 56) as u8;
        bytes[25] = (n >> 48) as u8;
        bytes[26] = (n >> 40) as u8;
        bytes[27] = (n >> 32) as u8;
        bytes[28] = (n >> 24) as u8;
        bytes[29] = (n >> 16) as u8;
        bytes[30] = (n >> 8) as u8;
        bytes[31] = n as u8;
        let u = U256 { bytes };
        proof {
            lemma_be_word_value(n);
        }
        u
    }

    pub fn same(&self, other: &U256) -> (r: bool)
        ensures
            r == (*self == *other),
            r == (self@ == other@),
    {
        let r = bytes_equal(&self.bytes, &other.bytes);
        proof {
            if r {
                assert(self.bytes =~= other.bytes);
            }
        }
        r
    }

    /// The word held in `data`, which must be exactly 32 bytes long.
    pub fn from_slice(data: &[u8]) -> (r: Option<U256>)
        ensures
            r is Some <==> data@.len() == 32,
            r is Some ==> r->0@ == data@,
    {
        if data.len() != 32 {
            return None;
        }
        let mut bytes = [0u8; 32];
        fill_from_slice(&mut bytes, data, 0);
        Some(U256 { bytes })
    }
}

/// Zero bytes spell zero.
pub proof fn lemma_be_value_zeros(n: nat)
    ensures
        be_value(zeros(n)) == 0,
    decreases n,
{
    if n > 0 {
        assert(zeros(n).drop_last() =~= zeros((n - 1) as nat));
        lemma_be_value_zeros((n - 1) as nat);
    }
}

/// Leading zero bytes do not change the number.
pub proof fn lemma_be_value_leading_zeros(n: nat, b: Seq<u8>)
    ensures
        be_value(zeros(n) + b) == be_value(b),
    decreases b.len(),
{
    if b.len() == 0 {
        lemma_be_value_zeros(n);
    } else {
        assert((zeros(n) + b).drop_last() =~= zeros(n) + b.drop_last());
        lemma_be_value_leading_zeros(n, b.drop_last());
    }
}

/// A number of `k` bytes is below `256^k`; stated for the eight bytes of a `u64`.
pub proof fn lemma_be_word_value(n: u64)
    ensures
        be_value(be_word(n)) == n,
{
    let tail = seq![
        (n >> 56) as u8,
        (n >> 48) as u8,
        (n >> 40) as u8,
        (n >> 32) as u8,
        (n >> 24) as u8,
        (n >> 16) as u8,
        (n >> 8) as u8,
        n as u8,
    ];
    lemma_be_value_leading_zeros(24, tail);
    let t7 = tail.drop_last();
    let t6 = t7.drop_last();
    let t5 = t6.drop_last();
    let t4 = t5.drop_last();
    let t3 = t4.drop_last();
    let t2 = t3.drop_last();
    let t1 = t2.drop_last();
    let t0 = t1.drop_last();
    assert(t0.len() == 0);
    assert(be_value(t0) == 0);
    assert(be_value(t1) == (n >> 56) as u8 as nat);
    assert(be_value(t2) == be_value(t1) * 256 + (n >> 48) as u8 as nat);
    assert(be_value(t3) == be_value(t2) * 256 + (n >> 40) as u8 as nat);
    assert(be_value(t4) == be_value(t3) * 256 + (n >> 32) as u8 as nat);
    assert(be_value(t5) == be_value(t4) * 256 + (n >> 24) as u8 as nat);
    assert(be_value(t6) == be_value(t5) * 256 + (n >> 16) as u8 as nat);
    assert(be_value(t7) == be_value(t6) * 256 + (n >> 8) as u8 as nat);
    assert(be_value(tail) == be_value(t7) * 256 + n as u8 as nat);
    assert(n == ((((((((n >> 56) as u8 as u64) * 256 + ((n >> 48) as u8 as u64)) * 256 + ((n >> 40) as u8 as u64)) * 256
        + ((n >> 32) as u8 as u64)) * 256 + ((n >> 24) as u8 as u64)) * 256 + ((n >> 16) as u8 as u64)) * 256
        + ((n >> 8) as u8 as u64)) * 256 + (n as u8 as u64)) by (bit_vector);
}

} // verus!

//! Keccak-256, as the two chains use it for block hashes, event topics and
//! function selectors.

use vstd::prelude::*;
use vstd::string::StringSliceAdditionalSpecFns;
use crate::primitives::H256;

verus! {

/// The Keccak-256 digest of `data`.
pub uninterp spec fn keccak256_digest(data: Seq<u8>) -> Seq<u8>;

/// Calls `ethers_core::utils::keccak256`. Trusted: the 32 bytes returned are
/// the Keccak-256 digest of `data`; nothing else is claimed of them.
#[verifier::external_body]
fn keccak256_bytes(data: &[u8]) -> (out: [u8; 32])
    ensures
        out@ == keccak256_digest(data@),
{
    ethers_core::utils::keccak256(data)
}

/// Whether `hash` is the Keccak-256 digest of `data`.
pub open spec fn is_keccak_of(hash: H256, data: Seq<u8>) -> bool {
    hash@ == keccak256_digest(data)
}

/// The Keccak-256 hash of `data`.
pub fn keccak256(data: &[u8]) -> (hash: H256)
    ensures
        is_keccak_of(hash, data@),
{
    H256 { bytes: keccak256_bytes(data) }
}

/// The hash of a signature such as `Transfer(address,uint256)`: the topic
/// under which an event of that signature is logged.
pub fn event_topic(signature: &str) -> (topic: H256)
    ensures
        is_keccak_of(topic, signature.spec_bytes()),
{
    keccak256(signature.as_bytes())
}

/// The first four bytes of the hash of a function's signature, which lead
/// every call of that function.
pub fn function_selector(signature: &str) -> (selector: [u8; 4])
    ensures
        selector@ == keccak256_digest(signature.spec_bytes()).take(4),
{
    let hash = keccak256(signature.as_bytes());
    let selector = [hash.bytes[0], hash.bytes[1], hash.bytes[2], hash.bytes[3]];
    selector
}

} // verus!

use coordinator::abi::{decode, encode, encoding_fits, AbiKind, AbiValue};
use coordinator::bridge::{
    decode_message, finalized_block_hash, submitted_block_hash, submitted_payload, BridgeAbi,
    BLOCK_FINALIZED, BLOCK_SUBMITTED, FINALIZE_BLOCK, L1_MESSAGE_SENT, SUBMIT_BLOCK,
};
use coordinator::hashing::{event_topic, function_selector, keccak256};
use coordinator::primitives::{Address, H256, U256};
use ethers_core::abi::{AbiParser, Token};

fn unhex(text: &str) -> Vec<u8> {
    let digits: Vec<u8> = text
        .bytes()
        .filter(|c| !c.is_ascii_whitespace())
        .map(|c| match c {
            b'0'..=b'9' => c - b'0',
            b'a'..=b'f' => c - b'a' + 10,
            _ => panic!("not a hex digit"),
        })
        .collect();
    assert!(digits.len() % 2 == 0);
    digits.chunks(2).map(|pair| pair[0] * 16 + pair[1]).collect()
}

fn hash_of_hex(text: &str) -> H256 {
    H256::from_slice(&unhex(text)).unwrap()
}

fn bridge_abi_as_parsed() -> ethers_core::abi::Abi {
    AbiParser::default()
        .parse(&[
            "event BlockSubmitted()",
            "event BlockFinalized(bytes32 blockHash)",
            "event L1MessageSent(address from, address to, uint256 value, uint256 fee, bytes data)",
            "function submitBlock(bytes)",
            "function finalizeBlock(bytes32 blockHash, bytes witness, bytes proof)",
        ])
        .unwrap()
}

fn word(n: u64) -> Vec<u8> {
    let mut w = vec![0u8; 24];
    w.extend_from_slice(&n.to_be_bytes());
    w
}

#[test]
fn keccak_of_nothing() {
    assert_eq!(
        keccak256(&[]),
        hash_of_hex("c5d2460186f7233c927e7db2dcc703c0e500b653ca82273b7bfad8045d85a470")
    );
}

#[test]
fn keccak_is_not_the_identity() {
    let data = [7u8; 32];
    assert_ne!(keccak256(&data).bytes, data);
    assert_ne!(keccak256(&[1]), keccak256(&[2]));
}

#[test]
fn topics_are_hashes_of_signatures() {
    assert_eq!(
        event_topic(BLOCK_SUBMITTED),
        hash_of_hex("cdf35dca8304861a13f78fcd9aa4cbe5bd689d13c643b4c875cccbfae3cbf67c")
    );
    assert_eq!(
        event_topic(BLOCK_FINALIZED),
        hash_of_hex("13a323bd8c6a1bee4a59d9f8a556a6b14ed08c656b9c36c57903c70865648cca")
    );
    assert_eq!(
        event_topic(L1_MESSAGE_SENT),
        hash_of_hex("e252c8a838ec344b754ae2f7de87c9cfb4dbd3752cb4adc613c276e2709d15a9")
    );
    assert_eq!(
        event_topic("Transfer(address,address,uint256)"),
        hash_of_hex("ddf252ad1be2c89b69c2b068fc378daa952ba7f163c4a11628f55a4df523b3ef")
    );
}

#[test]
fn selectors_are_first_four_bytes() {
    assert_eq!(function_selector(SUBMIT_BLOCK), [0xd5, 0x10, 0x73, 0x81]);
    assert_eq!(function_selector(FINALIZE_BLOCK), [0x5f, 0x49, 0xe6, 0x48]);
    assert_eq!(function_selector("baz(uint32,bool)"), [0xcd, 0xcd, 0x77, 0xc0]);
}

#[test]
fn registry_agrees_with_parsed_abi() {
    let parsed = bridge_abi_as_parsed();
    let abi = BridgeAbi::new();
    assert_eq!(abi.block_submitted.bytes, parsed.event("BlockSubmitted").unwrap().signature().0);
    assert_eq!(abi.block_finalized.bytes, parsed.event("BlockFinalized").unwrap().signature().0);
    assert_eq!(abi.message_sent.bytes, parsed.event("L1MessageSent").unwrap().signature().0);
    assert_eq!(abi.submit_block, parsed.function("submitBlock").unwrap().short_signature());
    assert_eq!(abi.finalize_block, parsed.function("finalizeBlock").unwrap().short_signature());
}

#[test]
fn submit_block_calldata_layout() {
    let abi = BridgeAbi::new();
    let calldata = abi.encode_submit_block(vec![0xde, 0xad, 0xbe, 0xef]).unwrap();
    let mut expected = vec![0xd5, 0x10, 0x73, 0x81];
    expected.extend(word(32));
    expected.extend(word(4));
    expected.extend([0xde, 0xad, 0xbe, 0xef]);
    expected.extend(vec![0u8; 28]);
    assert_eq!(calldata, expected);
    assert_eq!(calldata.len(), 4 + 96);
}

#[test]
fn submit_block_calldata_of_empty_header() {
    let abi = BridgeAbi::new();
    let calldata = abi.encode_submit_block(Vec::new()).unwrap();
    let mut expected = vec![0xd5, 0x10, 0x73, 0x81];
    expected.extend(word(32));
    expected.extend(word(0));
    assert_eq!(calldata, expected);
}

#[test]
fn submit_block_calldata_agrees_with_parsed_abi() {
    let parsed = bridge_abi_as_parsed();
    let abi = BridgeAbi::new();
    for len in [0usize, 1, 31, 32, 33, 64, 500] {
        let header: Vec<u8> = (0..len).map(|i| (i * 7 + 3) as u8).collect();
        let expected = parsed
            .function("submitBlock")
            .unwrap()
            .encode_input(&[Token::Bytes(header.clone())])
            .unwrap();
        assert_eq!(abi.encode_submit_block(header).unwrap(), expected);
    }
}

#[test]
fn finalize_block_calldata_layout() {
    let abi = BridgeAbi::new();
    let hash = H256 { bytes: [0x11; 32] };
    let calldata = abi.encode_finalize_block(hash, vec![0xaa; 32], vec![1, 2, 3]).unwrap();
    let mut expected = vec![0x5f, 0x49, 0xe6, 0x48];
    expected.extend([0x11; 32]);
    expected.extend(word(96));
    expected.extend(word(160));
    expected.extend(word(32));
    expected.extend([0xaa; 32]);
    expected.extend(word(3));
    expected.extend([1, 2, 3]);
    expected.extend(vec![0u8; 29]);
    assert_eq!(calldata, expected);
}

#[test]
fn finalize_block_calldata_agrees_with_parsed_abi() {
    let parsed = bridge_abi_as_parsed();
    let abi = BridgeAbi::new();
    let hash = H256 { bytes: [0x42; 32] };
    for (w, p) in [(0usize, 0usize), (32, 1), (32, 64), (5, 100), (33, 31)] {
        let witness: Vec<u8> = (0..w).map(|i| i as u8).collect();
        let proof: Vec<u8> = (0..p).map(|i| (255 - i) as u8).collect();
        let expected = parsed
            .function("finalizeBlock")
            .unwrap()
            .encode_input(&[
                Token::FixedBytes(hash.bytes.to_vec()),
                Token::Bytes(witness.clone()),
                Token::Bytes(proof.clone()),
            ])
            .unwrap();
        assert_eq!(abi.encode_finalize_block(hash, witness, proof).unwrap(), expected);
    }
}

#[test]
fn payload_comes_back_from_calldata() {
    let abi = BridgeAbi::new();
    for len in [0usize, 1, 32, 33, 600] {
        let header: Vec<u8> = (0..len).map(|i| (i % 251) as u8).collect();
        let calldata = abi.encode_submit_block(header.clone()).unwrap();
        assert_eq!(submitted_payload(&calldata), Some(header.clone()));
        assert_eq!(submitted_block_hash(&calldata), Some(keccak256(&header)));
    }
}

#[test]
fn payload_of_short_calldata_is_none() {
    assert_eq!(submitted_payload(&[]), None);
    assert_eq!(submitted_payload(&[0u8; 67]), None);
    assert_eq!(submitted_block_hash(&[0u8; 67]), None);
}

#[test]
fn payload_of_exactly_the_head() {
    assert_eq!(submitted_payload(&[0u8; 68]), Some(Vec::new()));
    assert_eq!(submitted_block_hash(&[0u8; 68]), Some(keccak256(&[])));
}

#[test]
fn payload_is_cut_where_calldata_ends() {
    // declares 10 bytes, holds 3
    let mut input = vec![0u8; 4];
    input.extend(word(32));
    input.extend(word(10));
    input.extend([9, 8, 7]);
    assert_eq!(submitted_payload(&input), Some(vec![9, 8, 7]));
    assert_eq!(submitted_block_hash(&input), Some(keccak256(&[9, 8, 7])));
}

#[test]
fn payload_with_a_length_beyond_any_calldata() {
    let mut input = vec![0u8; 4];
    input.extend(word(32));
    input.extend([0xff; 32]);
    input.extend([1, 2, 3, 4, 5]);
    assert_eq!(submitted_payload(&input), Some(vec![1, 2, 3, 4, 5]));
    let mut input = vec![0u8; 4];
    input.extend(word(32));
    let mut huge = vec![0u8; 32];
    huge[23] = 1;
    input.extend(huge);
    input.extend([6]);
    assert_eq!(submitted_payload(&input), Some(vec![6]));
}

#[test]
fn payload_ignores_what_follows_the_declared_length() {
    let mut input = vec![0xab; 4];
    input.extend(word(32));
    input.extend(word(2));
    input.extend([5, 6, 7, 8]);
    assert_eq!(submitted_payload(&input), Some(vec![5, 6]));
}

#[test]
fn finalized_hash_is_the_log_data() {
    let data: Vec<u8> = (0..32).collect();
    assert_eq!(finalized_block_hash(&data).unwrap().bytes.to_vec(), data);
    assert_eq!(finalized_block_hash(&data[..31]), None);
    assert_eq!(finalized_block_hash(&[0u8; 33]), None);
    assert_eq!(finalized_block_hash(&[]), None);
}

fn message_data(from: [u8; 20], to: [u8; 20], value: u64, fee: u64, calldata: &[u8]) -> Vec<u8> {
    ethers_core::abi::encode(&[
        Token::Address(from.into()),
        Token::Address(to.into()),
        Token::Uint(value.into()),
        Token::Uint(fee.into()),
        Token::Bytes(calldata.to_vec()),
    ])
}

#[test]
fn message_decodes_from_log_data() {
    let mut from = [0u8; 20];
    from[19] = 0x0a;
    let mut to = [0u8; 20];
    to[19] = 0x0b;
    let data = message_data(from, to, 1, 0, &[0xde, 0xad, 0xbe, 0xef]);
    let beacon = decode_message(&data).unwrap();
    assert_eq!(beacon.from, Address { bytes: from });
    assert_eq!(beacon.to, Address { bytes: to });
    assert_eq!(beacon.value, U256::from_u64(1));
    assert_eq!(beacon.fee, U256::zero());
    assert_eq!(beacon.calldata, vec![0xde, 0xad, 0xbe, 0xef]);
    assert_eq!(beacon.timestamp, 0);
}

#[test]
fn message_decodes_from_bytes_written_out() {
    let mut data = Vec::new();
    data.extend(vec![0xffu8; 12]);
    data.extend(vec![0x01u8; 20]);
    data.extend(vec![0u8; 12]);
    data.extend(vec![0x02u8; 20]);
    data.extend(word(0x0102030405060708));
    data.extend([0x80; 32]);
    data.extend(word(160));
    data.extend(word(2));
    data.extend([0x77, 0x88]);
    let beacon = decode_message(&data).unwrap();
    // the twelve bytes before an address are not looked at
    assert_eq!(beacon.from.bytes, [0x01; 20]);
    assert_eq!(beacon.to.bytes, [0x02; 20]);
    assert_eq!(beacon.value, U256::from_u64(0x0102030405060708));
    assert_eq!(beacon.fee.bytes, [0x80; 32]);
    assert_eq!(beacon.calldata, vec![0x77, 0x88]);
}

#[test]
fn message_that_does_not_decode() {
    assert!(decode_message(&[]).is_none());
    assert!(decode_message(&[0u8; 159]).is_none());
    let good = message_data([1; 20], [2; 20], 3, 4, &[5, 6, 7]);
    assert!(decode_message(&good).is_some());
    // cut in the middle of the calldata
    assert!(decode_message(&good[..good.len() - 32]).is_none());
    // an offset that points beyond the data
    let mut bad = good.clone();
    bad[128 + 31] = 0xff;
    bad[128 + 30] = 0xff;
    assert!(decode_message(&bad).is_none());
    // an offset that is no 32-bit number
    let mut bad = good.clone();
    bad[128] = 1;
    assert!(decode_message(&bad).is_none());
    // a length that is no 32-bit number
    let mut bad = good.clone();
    bad[160] = 1;
    assert!(decode_message(&bad).is_none());
}

#[test]
fn message_with_empty_calldata() {
    let data = message_data([1; 20], [2; 20], 0, 0, &[]);
    assert_eq!(data.len(), 192);
    let beacon = decode_message(&data).unwrap();
    assert!(beacon.calldata.is_empty());
}

#[test]
fn encoding_of_each_kind() {
    let values = vec![
        AbiValue::Address(Address { bytes: [0x11; 20] }),
        AbiValue::Uint(U256::from_u64(258)),
        AbiValue::Word(H256 { bytes: [0x22; 32] }),
        AbiValue::Bytes(vec![0x33; 33]),
    ];
    let mut expected = Vec::new();
    expected.extend(vec![0u8; 12]);
    expected.extend(vec![0x11u8; 20]);
    expected.extend(word(258));
    expected.extend(vec![0x22u8; 32]);
    expected.extend(word(128));
    expected.extend(word(33));
    expected.extend(vec![0x33u8; 33]);
    expected.extend(vec![0u8; 31]);
    assert!(encoding_fits(&values));
    assert_eq!(encode(&values), Some(expected.clone()));
    let kinds = vec![AbiKind::Address, AbiKind::Uint, AbiKind::Word, AbiKind::Bytes];
    assert_eq!(decode(&kinds, &expected), Some(values));
}

#[test]
fn encoding_of_nothing() {
    assert_eq!(encode(&Vec::new()), Some(Vec::new()));
    assert_eq!(decode(&Vec::new(), &[1, 2, 3]), Some(Vec::new()));
}

#[test]
fn decoding_reads_two_byte_strings() {
    let values = vec![AbiValue::Bytes(vec![1]), AbiValue::Bytes(vec![2; 40])];
    let data = encode(&values).unwrap();
    assert_eq!(data.len(), 64 + 64 + 96);
    assert_eq!(decode(&vec![AbiKind::Bytes, AbiKind::Bytes], &data), Some(values));
    assert_eq!(decode(&vec![AbiKind::Bytes, AbiKind::Bytes, AbiKind::Uint], &data[..64]), None);
}

#[test]
fn u256_of_u64_is_big_endian() {
    let u = U256::from_u64(0x0102030405060708);
    let mut expected = [0u8; 32];
    expected[24..].copy_from_slice(&[1, 2, 3, 4, 5, 6, 7, 8]);
    assert_eq!(u.bytes, expected);
    assert_eq!(U256::from_u64(0), U256::zero());
    assert_eq!(U256::from_u64(u64::MAX).bytes[24..], [0xff; 8]);
}

#[test]
fn hashes_compare_by_bytes() {
    let a = H256 { bytes: [1; 32] };
    let mut other = [1u8; 32];
    other[31] = 2;
    let b = H256 { bytes: other };
    assert!(a.same(&a));
    assert!(!a.same(&b));
    assert!(H256::zero().is_zero());
    assert!(!a.is_zero());
    assert_eq!(a.to_vec(), vec![1u8; 32]);
    assert!(Address::zero().same(&Address { bytes: [0; 20] }));
    assert_eq!(Address::from_slice(&[3u8; 20]), Some(Address { bytes: [3; 20] }));
    assert_eq!(Address::from_slice(&[3u8; 21]), None);
    assert_eq!(U256::from_slice(&[3u8; 31]), None);
    assert!(U256::from_slice(&[3u8; 32]).unwrap().same(&U256 { bytes: [3; 32] }));
}

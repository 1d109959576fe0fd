use coordinator::bridge::BridgeAbi;
use coordinator::hashing::keccak256;
use coordinator::primitives::{Address, H256, U256};
use coordinator::rpc::{genesis_call, Node, RpcCall};
use coordinator::shared_state::SharedState;
use coordinator::structs::{LocalWallet, Log};
use coordinator::sync::{classify, LogFilter, LogKind, SyncAction, SyncCursor, SyncEvent, SyncPhase, STEP};
use ethers_core::abi::Token;

fn sync_state() -> SharedState {
    SharedState::new(
        "http://leader:8545".to_string(),
        "http://l1:8545".to_string(),
        Address { bytes: [0xbb; 20] },
        LocalWallet { private_key: vec![1; 32], address: Address { bytes: [0xa1; 20] }, chain_id: 1 },
        LocalWallet { private_key: vec![2; 32], address: Address { bytes: [0xa2; 20] }, chain_id: 99 },
    )
}

fn filter_of(state: &SharedState, from: u64, to: u64) -> LogFilter {
    LogFilter {
        address: Address { bytes: [0xbb; 20] },
        block_beacon_topic: state.ro.block_beacon_topic,
        block_finalized_topic: state.ro.block_finalized_topic,
        message_beacon_topic: state.ro.message_beacon_topic,
        from_block: from,
        to_block: to,
    }
}

fn finalized_log(state: &SharedState, hash: [u8; 32]) -> Log {
    Log { topics: vec![state.ro.block_finalized_topic], data: hash.to_vec(), transaction_hash: None }
}

fn submitted_log(state: &SharedState, tx: [u8; 32]) -> Log {
    Log {
        topics: vec![state.ro.block_beacon_topic],
        data: Vec::new(),
        transaction_hash: Some(H256 { bytes: tx }),
    }
}

fn message_log(state: &SharedState, to: [u8; 20], value: u64, calldata: &[u8]) -> Log {
    let data = ethers_core::abi::encode(&[
        Token::Address([0x0a; 20].into()),
        Token::Address(to.into()),
        Token::Uint(value.into()),
        Token::Uint(0u64.into()),
        Token::Bytes(calldata.to_vec()),
    ]);
    Log { topics: vec![state.ro.message_beacon_topic], data, transaction_hash: None }
}

/// Begins a run on a chain whose latest block is `latest`, which must be
/// ahead, and hands over the logs of the first range.
fn start_with(state: &mut SharedState, latest: u64, logs: Vec<Log>) -> (SyncCursor, SyncAction) {
    let mut cursor = SyncCursor::new();
    assert_eq!(state.sync(&mut cursor, SyncEvent::Begin), SyncAction::FetchLatest);
    let action = state.sync(&mut cursor, SyncEvent::Latest(latest));
    assert!(matches!(action, SyncAction::FetchLogs { .. }));
    let action = state.sync(&mut cursor, SyncEvent::Logs(logs));
    (cursor, action)
}

#[test]
fn new_state_is_empty() {
    let state = sync_state();
    assert_eq!(state.ro.leader_node, "http://leader:8545");
    assert_eq!(state.ro.l1_node, "http://l1:8545");
    assert_eq!(state.ro.l1_bridge_addr, Address { bytes: [0xbb; 20] });
    assert_eq!(state.ro.l1_wallet, LocalWallet { private_key: vec![1; 32], address: Address { bytes: [0xa1; 20] }, chain_id: 1 });
    assert_eq!(state.ro.l2_wallet, LocalWallet { private_key: vec![2; 32], address: Address { bytes: [0xa2; 20] }, chain_id: 99 });
    let abi = BridgeAbi::new();
    assert_eq!(state.ro.l1_bridge_abi, abi);
    assert_eq!(state.ro.block_beacon_topic, abi.block_submitted);
    assert_eq!(state.ro.block_finalized_topic, abi.block_finalized);
    assert_eq!(state.ro.message_beacon_topic, abi.message_sent);
    assert!(state.rw.chain_state.head_block_hash.is_zero());
    assert!(state.rw.chain_state.safe_block_hash.is_zero());
    assert!(state.rw.chain_state.finalized_block_hash.is_zero());
    assert!(state.rw.nodes.is_empty());
    assert!(state.rw.prover_requests.is_empty());
    assert_eq!(state.rw.pending_proofs, 0);
    assert_eq!(state.rw.last_sync_block, 0);
    assert!(state.rw.l1_message_queue.is_empty());
}

#[test]
fn init_sets_the_three_heads() {
    let mut state = sync_state();
    let genesis = H256 { bytes: [0x67; 32] };
    state.init(genesis);
    assert_eq!(state.rw.chain_state.head_block_hash, genesis);
    assert_eq!(state.rw.chain_state.safe_block_hash, genesis);
    assert_eq!(state.rw.chain_state.finalized_block_hash, genesis);
    assert_eq!(state.rw.last_sync_block, 0);
    assert_eq!(state.rw.pending_proofs, 0);
    // the guard of a second call: the head is set
    assert!(!state.rw.chain_state.head_block_hash.is_zero());
}

#[test]
fn sync_with_nothing_new_is_over_at_once() {
    let mut state = sync_state();
    state.rw.last_sync_block = 7;
    for latest in [0u64, 6, 7] {
        let mut cursor = SyncCursor::new();
        assert_eq!(state.sync(&mut cursor, SyncEvent::Begin), SyncAction::FetchLatest);
        let action = state.sync(&mut cursor, SyncEvent::Latest(latest));
        assert_eq!(action, SyncAction::Done);
        assert_eq!(cursor.phase, SyncPhase::Finished);
        assert_eq!(state.rw.last_sync_block, 7);
    }
}

#[test]
fn sync_asks_for_the_first_range() {
    let mut state = sync_state();
    let mut cursor = SyncCursor::new();
    assert_eq!(state.sync(&mut cursor, SyncEvent::Begin), SyncAction::FetchLatest);
    let action = state.sync(&mut cursor, SyncEvent::Latest(5));
    assert_eq!(STEP, 1);
    assert_eq!(action, SyncAction::FetchLogs { filter: filter_of(&state, 1, 2) });
    assert_eq!(cursor.phase, SyncPhase::Logs);
    assert_eq!(state.rw.last_sync_block, 0);
}

#[test]
fn sync_walks_empty_ranges_up_to_latest() {
    let mut state = sync_state();
    let (mut cursor, action) = start_with(&mut state, 5, Vec::new());
    assert_eq!(action, SyncAction::FetchLogs { filter: filter_of(&state, 3, 4) });
    assert_eq!(state.rw.last_sync_block, 0);
    let action = state.sync(&mut cursor, SyncEvent::Logs(Vec::new()));
    assert_eq!(action, SyncAction::FetchLogs { filter: filter_of(&state, 5, 5) });
    let action = state.sync(&mut cursor, SyncEvent::Logs(Vec::new()));
    assert_eq!(action, SyncAction::Done);
    assert_eq!(cursor.phase, SyncPhase::Finished);
    assert_eq!(state.rw.last_sync_block, 5);
    assert!(state.rw.l1_message_queue.is_empty());
    assert!(state.rw.chain_state.safe_block_hash.is_zero());
    assert!(state.rw.chain_state.finalized_block_hash.is_zero());
}

#[test]
fn sync_of_one_new_block() {
    let mut state = sync_state();
    state.rw.last_sync_block = 8;
    let mut cursor = SyncCursor::new();
    assert_eq!(state.sync(&mut cursor, SyncEvent::Begin), SyncAction::FetchLatest);
    let action = state.sync(&mut cursor, SyncEvent::Latest(9));
    assert_eq!(action, SyncAction::FetchLogs { filter: filter_of(&state, 9, 9) });
    let action = state.sync(&mut cursor, SyncEvent::Logs(Vec::new()));
    assert_eq!(action, SyncAction::Done);
    assert_eq!(state.rw.last_sync_block, 9);
}

#[test]
fn sync_at_the_end_of_the_number_range() {
    let mut state = sync_state();
    state.rw.last_sync_block = u64::MAX - 2;
    let mut cursor = SyncCursor::new();
    assert_eq!(state.sync(&mut cursor, SyncEvent::Begin), SyncAction::FetchLatest);
    let action = state.sync(&mut cursor, SyncEvent::Latest(u64::MAX));
    assert_eq!(action, SyncAction::FetchLogs { filter: filter_of(&state, u64::MAX - 1, u64::MAX) });
    let action = state.sync(&mut cursor, SyncEvent::Logs(Vec::new()));
    assert_eq!(action, SyncAction::Done);
    assert_eq!(state.rw.last_sync_block, u64::MAX);
}

#[test]
fn logs_are_told_apart_by_their_first_topic() {
    let state = sync_state();
    assert_eq!(classify(&state.ro, &submitted_log(&state, [1; 32])), LogKind::BlockSubmitted);
    assert_eq!(classify(&state.ro, &finalized_log(&state, [1; 32])), LogKind::BlockFinalized);
    assert_eq!(classify(&state.ro, &message_log(&state, [1; 20], 0, &[])), LogKind::MessageSent);
    let none = Log { topics: Vec::new(), data: vec![1], transaction_hash: None };
    assert_eq!(classify(&state.ro, &none), LogKind::Other);
    let other = Log { topics: vec![H256 { bytes: [5; 32] }], data: vec![1], transaction_hash: None };
    assert_eq!(classify(&state.ro, &other), LogKind::Other);
    let second = Log {
        topics: vec![H256 { bytes: [5; 32] }, state.ro.block_finalized_topic],
        data: vec![1],
        transaction_hash: None,
    };
    assert_eq!(classify(&state.ro, &second), LogKind::Other);
}

#[test]
fn finalized_log_moves_the_finalized_head() {
    let mut state = sync_state();
    let logs = vec![finalized_log(&state, [0x31; 32]), finalized_log(&state, [0x32; 32])];
    let (_, action) = start_with(&mut state, 1, logs);
    assert_eq!(action, SyncAction::Done);
    // the last one seen stays
    assert_eq!(state.rw.chain_state.finalized_block_hash, H256 { bytes: [0x32; 32] });
    assert!(state.rw.chain_state.safe_block_hash.is_zero());
    assert!(state.rw.chain_state.head_block_hash.is_zero());
    assert_eq!(state.rw.last_sync_block, 1);
}

#[test]
fn finalized_log_with_odd_data_is_passed_over() {
    let mut state = sync_state();
    let mut short = finalized_log(&state, [0x31; 32]);
    short.data.pop();
    let mut long = finalized_log(&state, [0x31; 32]);
    long.data.push(0);
    let (_, action) = start_with(&mut state, 1, vec![short, long]);
    assert_eq!(action, SyncAction::Done);
    assert!(state.rw.chain_state.finalized_block_hash.is_zero());
    assert_eq!(state.rw.last_sync_block, 1);
}

#[test]
fn message_log_joins_the_queue() {
    let mut state = sync_state();
    let logs = vec![
        message_log(&state, [0x0b; 20], 1, &[0xde, 0xad, 0xbe, 0xef]),
        message_log(&state, [0x0c; 20], 2, &[]),
    ];
    let (_, action) = start_with(&mut state, 2, logs);
    assert_eq!(action, SyncAction::Done);
    let queue = &state.rw.l1_message_queue;
    assert_eq!(queue.len(), 2);
    assert_eq!(queue[0].from, Address { bytes: [0x0a; 20] });
    assert_eq!(queue[0].to, Address { bytes: [0x0b; 20] });
    assert_eq!(queue[0].value, U256::from_u64(1));
    assert_eq!(queue[0].fee, U256::zero());
    assert_eq!(queue[0].calldata, vec![0xde, 0xad, 0xbe, 0xef]);
    assert_eq!(queue[0].timestamp, 0);
    assert_eq!(queue[1].to, Address { bytes: [0x0c; 20] });
    assert_eq!(queue[1].value, U256::from_u64(2));
    assert_eq!(state.rw.last_sync_block, 2);
}

#[test]
fn message_log_that_does_not_decode_is_passed_over() {
    let mut state = sync_state();
    let mut cut = message_log(&state, [0x0b; 20], 1, &[1, 2, 3]);
    cut.data.truncate(100);
    let mut extra_topic = message_log(&state, [0x0b; 20], 1, &[1, 2, 3]);
    extra_topic.topics.push(H256 { bytes: [9; 32] });
    let good = message_log(&state, [0x0d; 20], 4, &[7]);
    let (_, action) = start_with(&mut state, 1, vec![cut, extra_topic, good]);
    assert_eq!(action, SyncAction::Done);
    assert_eq!(state.rw.l1_message_queue.len(), 1);
    assert_eq!(state.rw.l1_message_queue[0].to, Address { bytes: [0x0d; 20] });
}

#[test]
fn other_logs_change_nothing() {
    let mut state = sync_state();
    let logs = vec![
        Log { topics: Vec::new(), data: vec![0; 32], transaction_hash: None },
        Log { topics: vec![H256 { bytes: [5; 32] }], data: vec![0; 32], transaction_hash: None },
    ];
    let (_, action) = start_with(&mut state, 1, logs);
    assert_eq!(action, SyncAction::Done);
    assert!(state.rw.chain_state.finalized_block_hash.is_zero());
    assert!(state.rw.l1_message_queue.is_empty());
    assert_eq!(state.rw.last_sync_block, 1);
}

#[test]
fn submitted_block_becomes_safe_when_the_leader_knows_it() {
    let mut state = sync_state();
    let header = vec![0xf9, 0x02, 0x11, 0xa0];
    let calldata = state.ro.l1_bridge_abi.encode_submit_block(header.clone()).unwrap();
    let logs = vec![submitted_log(&state, [0x77; 32])];
    let (mut cursor, action) = start_with(&mut state, 1, logs);
    assert_eq!(action, SyncAction::FetchTransaction { hash: H256 { bytes: [0x77; 32] } });
    assert_eq!(cursor.phase, SyncPhase::Transaction);
    let action = state.sync(&mut cursor, SyncEvent::Transaction(calldata));
    let block_hash = keccak256(&header);
    assert_eq!(action, SyncAction::CheckHeader { hash: block_hash });
    assert_eq!(cursor.phase, SyncPhase::Header);
    assert!(state.rw.chain_state.safe_block_hash.is_zero());
    let action = state.sync(&mut cursor, SyncEvent::Header(true));
    assert_eq!(action, SyncAction::Done);
    assert_eq!(state.rw.chain_state.safe_block_hash, block_hash);
    assert!(state.rw.chain_state.head_block_hash.is_zero());
    assert_eq!(state.rw.last_sync_block, 1);
}

#[test]
fn submitted_block_that_the_leader_does_not_know_is_passed_over() {
    let mut state = sync_state();
    let calldata = state.ro.l1_bridge_abi.encode_submit_block(vec![1, 2, 3]).unwrap();
    let logs = vec![submitted_log(&state, [0x77; 32])];
    let (mut cursor, _) = start_with(&mut state, 1, logs);
    let action = state.sync(&mut cursor, SyncEvent::Transaction(calldata));
    assert!(matches!(action, SyncAction::CheckHeader { .. }));
    let action = state.sync(&mut cursor, SyncEvent::Header(false));
    assert_eq!(action, SyncAction::Done);
    assert!(state.rw.chain_state.safe_block_hash.is_zero());
    assert_eq!(state.rw.last_sync_block, 1);
}

#[test]
fn submitted_log_without_a_transaction_is_passed_over() {
    let mut state = sync_state();
    let mut log = submitted_log(&state, [0x77; 32]);
    log.transaction_hash = None;
    let logs = vec![log, finalized_log(&state, [0x44; 32])];
    let (_, action) = start_with(&mut state, 1, logs);
    assert_eq!(action, SyncAction::Done);
    assert!(state.rw.chain_state.safe_block_hash.is_zero());
    assert_eq!(state.rw.chain_state.finalized_block_hash, H256 { bytes: [0x44; 32] });
}

#[test]
fn submitted_transaction_with_short_calldata_is_passed_over() {
    let mut state = sync_state();
    let logs = vec![submitted_log(&state, [0x77; 32]), finalized_log(&state, [0x44; 32])];
    let (mut cursor, action) = start_with(&mut state, 1, logs);
    assert!(matches!(action, SyncAction::FetchTransaction { .. }));
    let action = state.sync(&mut cursor, SyncEvent::Transaction(vec![0; 67]));
    assert_eq!(action, SyncAction::Done);
    assert!(state.rw.chain_state.safe_block_hash.is_zero());
    assert_eq!(state.rw.chain_state.finalized_block_hash, H256 { bytes: [0x44; 32] });
    assert_eq!(state.rw.last_sync_block, 1);
}

#[test]
fn logs_of_one_range_are_consumed_in_order() {
    let mut state = sync_state();
    let first = state.ro.l1_bridge_abi.encode_submit_block(vec![1]).unwrap();
    let second = state.ro.l1_bridge_abi.encode_submit_block(vec![2]).unwrap();
    let logs = vec![
        message_log(&state, [0x01; 20], 1, &[]),
        submitted_log(&state, [0x71; 32]),
        finalized_log(&state, [0x41; 32]),
        message_log(&state, [0x02; 20], 2, &[]),
        submitted_log(&state, [0x72; 32]),
        finalized_log(&state, [0x42; 32]),
    ];
    let (mut cursor, action) = start_with(&mut state, 3, logs);
    // the first stop: what came before it is consumed, what comes after it is not
    assert_eq!(action, SyncAction::FetchTransaction { hash: H256 { bytes: [0x71; 32] } });
    assert_eq!(cursor.index, 1);
    assert_eq!(state.rw.l1_message_queue.len(), 1);
    assert!(state.rw.chain_state.finalized_block_hash.is_zero());
    let action = state.sync(&mut cursor, SyncEvent::Transaction(first));
    assert_eq!(action, SyncAction::CheckHeader { hash: keccak256(&[1]) });
    let action = state.sync(&mut cursor, SyncEvent::Header(true));
    assert_eq!(action, SyncAction::FetchTransaction { hash: H256 { bytes: [0x72; 32] } });
    assert_eq!(cursor.index, 4);
    assert_eq!(state.rw.chain_state.safe_block_hash, keccak256(&[1]));
    assert_eq!(state.rw.chain_state.finalized_block_hash, H256 { bytes: [0x41; 32] });
    assert_eq!(state.rw.l1_message_queue.len(), 2);
    let action = state.sync(&mut cursor, SyncEvent::Transaction(second));
    assert_eq!(action, SyncAction::CheckHeader { hash: keccak256(&[2]) });
    let action = state.sync(&mut cursor, SyncEvent::Header(true));
    // the range was 1 to 2, and the chain is at 3
    assert_eq!(action, SyncAction::FetchLogs { filter: filter_of(&state, 3, 3) });
    assert_eq!(state.rw.chain_state.safe_block_hash, keccak256(&[2]));
    assert_eq!(state.rw.chain_state.finalized_block_hash, H256 { bytes: [0x42; 32] });
    assert_eq!(state.rw.last_sync_block, 0);
    let action = state.sync(&mut cursor, SyncEvent::Logs(Vec::new()));
    assert_eq!(action, SyncAction::Done);
    assert_eq!(state.rw.last_sync_block, 3);
    assert_eq!(state.rw.l1_message_queue[0].to, Address { bytes: [0x01; 20] });
    assert_eq!(state.rw.l1_message_queue[1].to, Address { bytes: [0x02; 20] });
}

#[test]
fn failure_ends_the_run_and_keeps_the_sync_block() {
    let mut state = sync_state();
    let logs = vec![finalized_log(&state, [0x41; 32]), submitted_log(&state, [0x71; 32])];
    let (mut cursor, action) = start_with(&mut state, 4, logs);
    assert!(matches!(action, SyncAction::FetchTransaction { .. }));
    let action = state.sync(&mut cursor, SyncEvent::Failed);
    assert_eq!(action, SyncAction::Done);
    assert_eq!(cursor.phase, SyncPhase::Finished);
    assert_eq!(state.rw.last_sync_block, 0);
    // what was consumed stays
    assert_eq!(state.rw.chain_state.finalized_block_hash, H256 { bytes: [0x41; 32] });
    // a finished run takes no more events
    let action = state.sync(&mut cursor, SyncEvent::Logs(vec![finalized_log(&state, [0x49; 32])]));
    assert_eq!(action, SyncAction::Done);
    assert_eq!(state.rw.chain_state.finalized_block_hash, H256 { bytes: [0x41; 32] });
}

#[test]
fn failure_while_waiting_for_logs_ends_the_run() {
    let mut state = sync_state();
    let mut cursor = SyncCursor::new();
    assert_eq!(state.sync(&mut cursor, SyncEvent::Begin), SyncAction::FetchLatest);
    state.sync(&mut cursor, SyncEvent::Latest(3));
    let action = state.sync(&mut cursor, SyncEvent::Failed);
    assert_eq!(action, SyncAction::Done);
    assert_eq!(state.rw.last_sync_block, 0);
    let mut cursor = SyncCursor::new();
    let action = state.sync(&mut cursor, SyncEvent::Failed);
    assert_eq!(action, SyncAction::Done);
}

#[test]
fn event_out_of_turn_ends_the_run() {
    let mut state = sync_state();
    let mut cursor = SyncCursor::new();
    let action = state.sync(&mut cursor, SyncEvent::Header(true));
    assert_eq!(action, SyncAction::Done);
    assert_eq!(cursor.phase, SyncPhase::Finished);
    let mut cursor = SyncCursor::new();
    assert_eq!(state.sync(&mut cursor, SyncEvent::Begin), SyncAction::FetchLatest);
    state.sync(&mut cursor, SyncEvent::Latest(3));
    let action = state.sync(&mut cursor, SyncEvent::Transaction(vec![0; 100]));
    assert_eq!(action, SyncAction::Done);
    let mut cursor = SyncCursor::new();
    assert_eq!(state.sync(&mut cursor, SyncEvent::Begin), SyncAction::FetchLatest);
    state.sync(&mut cursor, SyncEvent::Latest(3));
    let action = state.sync(&mut cursor, SyncEvent::Latest(4));
    assert_eq!(action, SyncAction::Done);
    assert_eq!(state.rw.last_sync_block, 0);
    assert!(state.rw.chain_state.safe_block_hash.is_zero());
}

#[test]
fn sync_never_moves_the_sync_block_back() {
    let mut state = sync_state();
    state.rw.last_sync_block = 10;
    // a cursor of a run that began when the chain was at 4
    let mut cursor = SyncCursor::new();
    cursor.phase = SyncPhase::Logs;
    cursor.latest = 4;
    cursor.to = 4;
    let action = state.sync(&mut cursor, SyncEvent::Logs(Vec::new()));
    assert_eq!(action, SyncAction::Done);
    assert_eq!(state.rw.last_sync_block, 10);
}

#[test]
fn new_sync_cursor_is_blank() {
    let cursor = SyncCursor::new();
    assert_eq!(cursor.phase, SyncPhase::Start);
    assert_eq!(cursor.latest, 0);
    assert_eq!(cursor.to, 0);
    assert!(cursor.logs.is_empty());
    assert_eq!(cursor.index, 0);
    assert!(cursor.block_hash.is_zero());
}

#[test]
fn sync_begins_by_asking_for_the_latest_block() {
    let mut state = sync_state();
    let mut cursor = SyncCursor::new();
    assert_eq!(cursor.phase, SyncPhase::Start);
    let action = state.sync(&mut cursor, SyncEvent::Begin);
    assert_eq!(action, SyncAction::FetchLatest);
    assert_eq!(cursor.phase, SyncPhase::Latest);
    // the number must come next
    let mut early = SyncCursor::new();
    let action = state.sync(&mut early, SyncEvent::Latest(5));
    assert_eq!(action, SyncAction::Done);
    assert_eq!(state.rw.last_sync_block, 0);
}

#[test]
fn sync_calls_are_named() {
    let state = sync_state();
    let l1 = |method| Some(RpcCall { node: Node::L1, method, timeout_ms: None });
    assert_eq!(SyncAction::FetchLatest.rpc(), l1("eth_blockNumber"));
    assert_eq!(SyncAction::FetchLogs { filter: filter_of(&state, 1, 2) }.rpc(), l1("eth_getLogs"));
    assert_eq!(
        SyncAction::FetchTransaction { hash: H256::zero() }.rpc(),
        l1("eth_getTransactionByHash")
    );
    assert_eq!(
        SyncAction::CheckHeader { hash: H256::zero() }.rpc(),
        Some(RpcCall { node: Node::Leader, method: "eth_getHeaderByHash", timeout_ms: None })
    );
    assert_eq!(SyncAction::Done.rpc(), None);
    assert_eq!(state.ro.node_url(Node::L1), "http://l1:8545");
    assert_eq!(state.ro.node_url(Node::Leader), "http://leader:8545");
    assert_eq!(
        genesis_call(),
        RpcCall { node: Node::Leader, method: "eth_getBlockByNumber", timeout_ms: Some(5000) }
    );
}

#[test]
fn sync_leaves_the_proof_requests_alone() {
    let mut state = sync_state();
    state.rw.prover_requests.insert(3, None);
    state.rw.pending_proofs = 1;
    let logs = vec![finalized_log(&state, [0x41; 32])];
    let (_, action) = start_with(&mut state, 1, logs);
    assert_eq!(action, SyncAction::Done);
    assert_eq!(state.rw.pending_proofs, 1);
    assert_eq!(state.rw.prover_requests.len(), 1);
    assert_eq!(state.rw.prover_requests.get(&3), Some(&None));
}

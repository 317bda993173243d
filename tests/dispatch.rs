use ethers::abi::{encode, Token};
use ethers::types::{Address, U256};
use ethers::utils::keccak256;
use serverless::dispatch::{
    bytes_eq, decode_job_created, ChainLog, JobTask, ListenerState, NodeConfig, SupervisorStep,
};
use serverless::word::{word_from_be_bytes, Word};

const CREATED: &str = "JobCreated(uint256,address,bytes32,bytes,uint256,address[])";
const RESPONDED: &str = "JobResponded(uint256,bytes,uint256,uint8,uint8)";

fn me() -> Address {
    Address::from_low_u64_be(0xabcd)
}

fn config(quorum: u8) -> NodeConfig {
    NodeConfig { address: me().0.to_vec(), num_selected_executors: quorum }
}

fn id_topic(id: u64) -> Vec<u8> {
    let mut b = [0u8; 32];
    U256::from(id).to_big_endian(&mut b);
    b.to_vec()
}

fn created_log(id: u64, block: u64, deadline: u64, selected: Vec<Address>) -> ChainLog {
    let data = encode(&[
        Token::FixedBytes(vec![0xab; 32]),
        Token::Bytes(vec![1, 2, 3]),
        Token::Uint(U256::from(deadline)),
        Token::Array(selected.into_iter().map(Token::Address).collect()),
    ]);
    ChainLog {
        removed: Some(false),
        block_number: Some(block),
        topics: vec![keccak256(CREATED).to_vec(), id_topic(id)],
        data,
    }
}

fn responded_log(id: u64, block: u64, count: u64) -> ChainLog {
    let data = encode(&[
        Token::Bytes(vec![9]),
        Token::Uint(U256::from(5u64)),
        Token::Uint(U256::from(0u64)),
        Token::Uint(U256::from(count)),
    ]);
    ChainLog {
        removed: Some(false),
        block_number: Some(block),
        topics: vec![keccak256(RESPONDED).to_vec(), id_topic(id)],
        data,
    }
}

fn w(v: u128) -> Word {
    Word { hi: 0, lo: v }
}

#[test]
fn created_job_selected_spawns_both_tasks() {
    let mut st = ListenerState::new(10);
    let deadline = 1_700_000_000u64 + 60;
    let log = created_log(42, 12, deadline, vec![Address::from_low_u64_be(1), me()]);
    let tasks = st.handle_job_log(&config(3), &log);
    assert!(st.running.contains(w(42)));
    assert_eq!(st.last_block_seen, 12);
    assert_eq!(tasks.len(), 2);
    match &tasks[0] {
        JobTask::Timeout { job_id, deadline: d } => {
            assert_eq!(*job_id, w(42));
            assert_eq!(*d, w(deadline as u128));
        }
        _ => panic!("first task must watch the deadline"),
    }
    match &tasks[1] {
        JobTask::Execute { job_id, code_hash, code_inputs, deadline: d } => {
            assert_eq!(*job_id, w(42));
            assert_eq!(code_hash.as_str(), format!("0x{}", "ab".repeat(32)));
            assert_eq!(code_inputs, &vec![1u8, 2, 3]);
            assert_eq!(*d, w(deadline as u128));
        }
        _ => panic!("second task must execute the job"),
    }
}

#[test]
fn created_job_not_selected_only_watches() {
    let mut st = ListenerState::new(0);
    let log = created_log(7, 3, 100, vec![Address::from_low_u64_be(1)]);
    let tasks = st.handle_job_log(&config(3), &log);
    assert!(st.running.contains(w(7)));
    assert_eq!(tasks.len(), 1);
    assert!(matches!(tasks[0], JobTask::Timeout { .. }));
}

#[test]
fn responded_with_quorum_removes_job() {
    let mut st = ListenerState::new(0);
    st.handle_job_log(&config(3), &created_log(42, 1, 100, vec![]));
    assert!(st.running.contains(w(42)));
    let tasks = st.handle_job_log(&config(3), &responded_log(42, 2, 3));
    assert!(tasks.is_empty());
    assert!(!st.running.contains(w(42)));
    assert_eq!(st.running.len(), 0);
}

#[test]
fn responded_below_quorum_keeps_job() {
    let mut st = ListenerState::new(0);
    st.handle_job_log(&config(3), &created_log(42, 1, 100, vec![]));
    st.handle_job_log(&config(3), &responded_log(42, 2, 2));
    assert!(st.running.contains(w(42)));
    assert_eq!(st.last_block_seen, 2);
}

#[test]
fn malformed_created_log_is_skipped_but_cursor_advances() {
    let mut st = ListenerState::new(5);
    let mut log = created_log(9, 8, 100, vec![me()]);
    // cut the address array short
    let n = log.data.len();
    log.data.truncate(n - 16);
    let tasks = st.handle_job_log(&config(3), &log);
    assert!(tasks.is_empty());
    assert_eq!(st.last_block_seen, 8);
    assert!(!st.running.contains(w(9)));
    assert_eq!(st.running.len(), 0);
}

#[test]
fn missing_id_topic_is_skipped() {
    let mut st = ListenerState::new(0);
    let mut log = created_log(9, 4, 100, vec![me()]);
    log.topics.truncate(1);
    assert!(st.handle_job_log(&config(3), &log).is_empty());
    assert_eq!(st.last_block_seen, 4);
    assert_eq!(st.running.len(), 0);
}

#[test]
fn retracted_logs_change_nothing() {
    for removed in [Some(true), None] {
        let mut st = ListenerState::new(5);
        let mut log = created_log(1, 9, 100, vec![me()]);
        log.removed = removed;
        assert!(st.handle_job_log(&config(3), &log).is_empty());
        assert_eq!(st.last_block_seen, 5);
        assert_eq!(st.running.len(), 0);
        assert!(!st.handle_registration_log(&log));
        assert!(!st.registered);
        st.registered = true;
        assert!(!st.handle_deregistration_log(&log));
        assert!(st.registered);
        assert_eq!(st.last_block_seen, 5);
    }
}

#[test]
fn stale_log_is_discarded() {
    let mut st = ListenerState::new(10);
    let tasks = st.handle_job_log(&config(3), &created_log(1, 9, 100, vec![me()]));
    assert!(tasks.is_empty());
    assert_eq!(st.last_block_seen, 10);
    assert_eq!(st.running.len(), 0);
}

#[test]
fn cursor_never_moves_back() {
    let mut st = ListenerState::new(0);
    let cfg = config(3);
    let mut last = 0u64;
    for (id, block) in [(1u64, 5u64), (2, 3), (3, 5), (4, 9), (5, 1)] {
        st.handle_job_log(&cfg, &created_log(id, block, 100, vec![]));
        assert!(st.last_block_seen >= last);
        last = st.last_block_seen;
    }
    assert_eq!(st.last_block_seen, 9);
    assert_eq!(st.running.len(), 3);
    let mut reg = created_log(1, 2, 0, vec![]);
    reg.topics.clear();
    assert!(st.handle_registration_log(&reg));
    assert_eq!(st.last_block_seen, 9);
}

#[test]
fn replayed_creation_is_idempotent() {
    let mut st = ListenerState::new(0);
    let log = created_log(42, 7, 100, vec![me()]);
    st.handle_job_log(&config(3), &log);
    let again = st.handle_job_log(&config(3), &log);
    assert_eq!(again.len(), 2);
    assert_eq!(st.running.len(), 1);
    assert_eq!(st.last_block_seen, 7);
}

#[test]
fn registration_and_deregistration() {
    let mut st = ListenerState::new(3);
    assert!(st.needs_registration());
    let mut log = created_log(1, 20, 0, vec![]);
    log.topics.clear();
    assert!(st.handle_registration_log(&log));
    assert!(st.registered);
    assert!(!st.needs_registration());
    assert_eq!(st.last_block_seen, 20);
    assert_eq!(st.after_dispatch(), SupervisorStep::Reconnect);
    assert!(st.handle_deregistration_log(&log));
    assert!(!st.registered);
    assert_eq!(st.after_dispatch(), SupervisorStep::Exit);
    assert_eq!(st.last_block_seen, 20);
}

#[test]
fn unknown_topic_only_moves_cursor() {
    let mut st = ListenerState::new(0);
    let mut log = created_log(1, 6, 100, vec![me()]);
    log.topics[0] = vec![0u8; 32];
    assert!(st.handle_job_log(&config(3), &log).is_empty());
    assert_eq!(st.last_block_seen, 6);
    assert_eq!(st.running.len(), 0);
}

#[test]
fn decodes_created_fields() {
    let log = created_log(300, 1, 77, vec![Address::from_low_u64_be(5), me()]);
    let c = decode_job_created(&log, &me().0.to_vec()).unwrap();
    assert_eq!(c.job_id, w(300));
    assert_eq!(c.deadline, w(77));
    assert_eq!(c.code_hash, vec![0xab; 32]);
    assert_eq!(c.code_inputs, vec![1, 2, 3]);
    assert!(c.selected);
    let other = decode_job_created(&log, &vec![0u8; 20]).unwrap();
    assert!(!other.selected);
}

#[test]
fn word_reads_big_endian() {
    let mut b = vec![0u8; 32];
    b[15] = 1;
    b[31] = 2;
    b[30] = 1;
    assert_eq!(word_from_be_bytes(&b), Word { hi: 1, lo: 258 });
    assert_eq!(Word { hi: 0, lo: 5 }.to_u64(), Some(5));
    assert_eq!(Word { hi: 1, lo: 5 }.to_u64(), None);
    assert_eq!(Word::from_u128(9), w(9));
}

#[test]
fn byte_equality() {
    assert!(bytes_eq(&[1, 2], &[1, 2]));
    assert!(!bytes_eq(&[1, 2], &[1, 3]));
    assert!(!bytes_eq(&[1], &[1, 3]));
}

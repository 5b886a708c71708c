use gossip_node::state::{timestamp_of, State, Timestamp};
use std::time::{SystemTime, UNIX_EPOCH};

const SECOND: Timestamp = 1_000_000_000;

fn clock() -> Timestamp {
    SystemTime::now().duration_since(UNIX_EPOCH).unwrap().as_nanos()
}

fn sorted(mut ports: Vec<u16>) -> Vec<u16> {
    ports.sort();
    ports
}

#[test]
fn peer_should_not_be_repeated() {
    let mut state = State::new(String::from("node1"), 5000);
    state.add_peer(5001);
    state.add_peer(5002);
    state.add_peer(5001);

    assert_eq!(state.get_peers().len(), 2);
}

#[test]
fn stale_peers_should_be_evicted() {
    let mut state = State::new(String::from("node1"), 5000);
    state.add_peer(5001);
    state.add_peer(5002);
    state.add_peer_at(5003, clock() - 11 * SECOND);

    assert_eq!(state.get_peers().len(), 3);
    state.evict_stale_peers();
    assert_eq!(state.get_peers().len(), 2);
    assert_eq!(sorted(state.get_peers()), vec![5001, 5002]);
}

#[test]
fn new_state_is_empty() {
    let state = State::new(String::from("node1"), 5000);
    assert_eq!(state.name(), "node1");
    assert_eq!(state.my_port(), 5000);
    assert!(state.get_peers().is_empty());
    assert_eq!(state.biggest_prime(), 2);
    assert_eq!(state.biggest_prime_sender(), 5000);
    assert_eq!(state.last_msg_id(), 0);
    assert!(state.is_awake());
    assert!(!state.has_seen_message(5001, 1));
}

#[test]
fn added_peers_are_counted_once_each() {
    let mut state = State::new(String::from("node1"), 5000);
    for peer in [5001u16, 5002, 5001, 5003, 5002, 5001] {
        state.add_peer_at(peer, 7 * SECOND);
    }
    assert_eq!(sorted(state.get_peers()), vec![5001, 5002, 5003]);
}

#[test]
fn own_port_is_never_a_peer() {
    let mut state = State::new(String::from("node1"), 5000);
    state.add_peer(5000);
    state.add_peer_at(5000, 3 * SECOND);
    state.update_last_heard_from(5000);
    assert!(state.get_peers().is_empty());
    assert_eq!(state.last_heard_from(5000), None);
}

#[test]
fn adding_a_known_peer_replaces_its_time() {
    let mut state = State::new(String::from("node1"), 5000);
    state.add_peer_at(5001, 3 * SECOND);
    assert_eq!(state.last_heard_from(5001), Some(3 * SECOND));
    state.update_last_heard_from_at(5001, 8 * SECOND);
    assert_eq!(state.last_heard_from(5001), Some(8 * SECOND));
    assert_eq!(state.get_peers(), vec![5001]);
}

#[test]
fn add_peer_reads_the_clock() {
    let before = clock();
    let mut state = State::new(String::from("node1"), 5000);
    state.add_peer(5001);
    let heard = state.last_heard_from(5001).unwrap();
    assert!(before <= heard);
    assert!(heard <= clock());
}

#[test]
fn peer_is_present_after_nine_seconds_and_absent_after_eleven() {
    let added = 100 * SECOND;
    let mut state = State::new(String::from("node1"), 5000);
    state.add_peer_at(5001, added);
    state.evict_stale_peers_at(added + 9 * SECOND);
    assert_eq!(state.get_peers(), vec![5001]);
    state.evict_stale_peers_at(added + 11 * SECOND);
    assert!(state.get_peers().is_empty());
}

#[test]
fn staleness_starts_after_the_tenth_second() {
    assert!(!State::is_stale(100 * SECOND, 110 * SECOND));
    assert!(State::is_stale(100 * SECOND, 110 * SECOND + 1));
    assert!(!State::is_stale(100 * SECOND, 100 * SECOND));
    assert!(!State::is_stale(100 * SECOND, 50 * SECOND));
    assert!(State::is_stale(0, u128::MAX));
}

#[test]
fn eviction_keeps_the_peer_at_exactly_ten_seconds() {
    let mut state = State::new(String::from("node1"), 5000);
    state.add_peer_at(5001, 100 * SECOND);
    state.add_peer_at(5002, 100 * SECOND - 1);
    state.add_peer_at(5003, 200 * SECOND);
    state.evict_stale_peers_at(110 * SECOND);
    assert_eq!(sorted(state.get_peers()), vec![5001, 5003]);
    assert_eq!(state.last_heard_from(5001), Some(100 * SECOND));
}

#[test]
fn message_ids_count_up_from_one() {
    let mut state = State::new(String::from("node1"), 5000);
    for expected in 1u32..=20 {
        assert_eq!(state.get_next_msg_id(), expected);
        assert_eq!(state.last_msg_id(), expected);
    }
}

#[test]
fn message_is_seen_once_recorded() {
    let mut state = State::new(String::from("node1"), 5000);
    assert!(!state.has_seen_message(5001, 7));
    state.record_received_message(5001, 7);
    assert!(state.has_seen_message(5001, 7));
    assert!(!state.has_seen_message(5001, 8));
    assert!(!state.has_seen_message(5002, 7));
    assert!(!state.has_seen_message(7, 5001));
    state.record_received_message(5001, 7);
    assert!(state.has_seen_message(5001, 7));
}

#[test]
fn seen_messages_with_extreme_ids_are_told_apart() {
    let mut state = State::new(String::from("node1"), 5000);
    state.record_received_message(u16::MAX, u32::MAX);
    state.record_received_message(0, 0);
    assert!(state.has_seen_message(u16::MAX, u32::MAX));
    assert!(state.has_seen_message(0, 0));
    assert!(!state.has_seen_message(u16::MAX, 0));
    assert!(!state.has_seen_message(0, u32::MAX));
    assert!(!state.has_seen_message(1, 0));
}

#[test]
fn biggest_prime_is_compared_and_captured() {
    let mut state = State::new(String::from("node1"), 5000);
    assert!(state.is_biggest_prime(3));
    assert!(!state.is_biggest_prime(2));
    assert!(!state.is_biggest_prime(1));
    state.capture_bigget_prime(5001, 13);
    assert_eq!(state.biggest_prime(), 13);
    assert_eq!(state.biggest_prime_sender(), 5001);
    assert!(!state.is_biggest_prime(13));
    assert!(state.is_biggest_prime(14));
    state.capture_bigget_prime(5002, 3);
    assert_eq!(state.biggest_prime(), 3);
    assert_eq!(state.biggest_prime_sender(), 5002);
}

#[test]
fn generated_primes_follow_the_known_exponents() {
    let mut state = State::new(String::from("node1"), 5000);
    state.capture_bigget_prime(5001, 2);
    let mut found = Vec::new();
    for _ in 0..8 {
        found.push(state.generate_next_mersenne_prime());
        assert_eq!(state.biggest_prime_sender(), 5000);
    }
    assert_eq!(found, vec![3, 5, 7, 13, 17, 19, 31, 61]);
    assert_eq!(state.biggest_prime(), 61);
}

#[test]
fn peers_snapshot_is_a_copy() {
    let mut state = State::new(String::from("node1"), 5000);
    state.add_peer_at(5001, SECOND);
    let snapshot = state.get_peers();
    state.add_peer_at(5002, SECOND);
    state.evict_stale_peers_at(100 * SECOND);
    assert_eq!(snapshot, vec![5001]);
}

#[test]
fn received_messages_are_listed_once_each() {
    let mut state = State::new(String::from("node1"), 5000);
    assert!(state.get_received_messages().is_empty());
    state.record_received_message(5001, 7);
    state.record_received_message(u16::MAX, u32::MAX);
    state.record_received_message(5001, 7);
    state.record_received_message(0, 1);
    let mut listed = state.get_received_messages();
    listed.sort();
    assert_eq!(listed, vec![(0, 1), (5001, 7), (u16::MAX, u32::MAX)]);
}

#[test]
fn clock_before_the_epoch_reads_as_the_epoch() {
    assert_eq!(timestamp_of(None), 0);
    assert_eq!(timestamp_of(Some(0)), 0);
    assert_eq!(timestamp_of(Some(17 * SECOND + 3)), 17 * SECOND + 3);
    assert_eq!(timestamp_of(Some(u128::MAX)), u128::MAX);
}

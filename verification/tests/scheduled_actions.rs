use gossip_node::message::{Message, Port};
use gossip_node::scheduled_actions::{
    checked_and_recorded, evict_stale_peers, generate_next_prime_message, handle, handle_at,
    prepare_ping_messages,
    prepare_pong_message, prepare_prime_message, respond, Actions, EVICTION_INTERVAL_SECS,
    GOSSIP_INTERVAL_SECS, INITIAL_TTL, PING_INTERVAL_SECS,
};
use gossip_node::state::{State, Timestamp};

const SECOND: Timestamp = 1_000_000_000;

fn node(port: Port, peers: &[Port]) -> State {
    let mut state = State::new(String::from("node"), port);
    for peer in peers {
        state.add_peer_at(*peer, SECOND);
    }
    state
}

fn by_recipient(mut out: Vec<(Port, Message)>) -> Vec<(Port, Message)> {
    out.sort_by_key(|o| o.0);
    out
}

#[test]
fn intervals_are_five_two_and_ten_seconds() {
    assert_eq!(PING_INTERVAL_SECS, 5);
    assert_eq!(EVICTION_INTERVAL_SECS, 2);
    assert_eq!(GOSSIP_INTERVAL_SECS, 10);
    assert_eq!(INITIAL_TTL, 2);
    assert_eq!(Actions::PingEveryone.period_secs(), Some(5));
    assert_eq!(Actions::EvictStalePeers.period_secs(), Some(2));
    assert_eq!(Actions::GossipMersennePrime.period_secs(), Some(10));
    let ping = Message::Ping { msg_id: 1, msg_originator: 5000 };
    assert_eq!(Actions::Respond(ping).period_secs(), None);
}

#[test]
fn every_peer_gets_a_ping_with_its_own_id() {
    let mut state = node(5000, &[5001, 5002, 5003]);
    let out = prepare_ping_messages(&mut state);
    assert_eq!(out.len(), 3);
    for (i, (_, message)) in out.iter().enumerate() {
        assert_eq!(*message, Message::Ping { msg_id: i as u32 + 1, msg_originator: 5000 });
    }
    let mut to: Vec<Port> = out.iter().map(|o| o.0).collect();
    to.sort();
    assert_eq!(to, vec![5001, 5002, 5003]);
    assert_eq!(state.last_msg_id(), 3);
}

#[test]
fn no_peers_no_pings() {
    let mut state = node(5000, &[]);
    assert!(handle_at(Actions::PingEveryone, &mut state, SECOND).is_empty());
    assert_eq!(state.last_msg_id(), 0);
}

#[test]
fn eviction_action_drops_stale_peers_and_sends_nothing() {
    let mut state = node(5000, &[5001]);
    state.add_peer_at(5002, 20 * SECOND);
    let out = handle_at(Actions::EvictStalePeers, &mut state, 25 * SECOND);
    assert!(out.is_empty());
    assert_eq!(state.get_peers(), vec![5002]);
}

#[test]
fn gossip_announces_the_next_exponent_to_every_peer() {
    let mut state = node(5000, &[5001, 5002]);
    let out = by_recipient(handle_at(Actions::GossipMersennePrime, &mut state, SECOND));
    let expected = Message::Prime {
        msg_id: 1,
        ttl: 2,
        msg_originator: 5000,
        msg_forwarder: 5000,
        data: 3,
    };
    assert_eq!(out, vec![(5001, expected), (5002, expected)]);
    assert_eq!(state.biggest_prime(), 3);
    assert_eq!(state.biggest_prime_sender(), 5000);
    assert_eq!(state.last_msg_id(), 1);
}

#[test]
fn next_prime_message_carries_the_new_exponent() {
    let mut state = node(5000, &[5001]);
    state.capture_bigget_prime(5001, 7);
    let (peers, message) = generate_next_prime_message(&mut state);
    assert_eq!(peers, vec![5001]);
    assert_eq!(
        message,
        Message::Prime { msg_id: 1, ttl: 2, msg_originator: 5000, msg_forwarder: 5000, data: 13 }
    );
}

#[test]
fn fresh_message_is_recorded_and_forwarder_heard() {
    let mut state = node(5000, &[]);
    assert!(checked_and_recorded(4, 5001, 5002, &mut state, 9 * SECOND));
    assert!(state.has_seen_message(5001, 4));
    assert_eq!(state.get_peers(), vec![5002]);
    assert_eq!(state.last_heard_from(5002), Some(9 * SECOND));
    assert!(!checked_and_recorded(4, 5001, 5003, &mut state, 10 * SECOND));
    assert_eq!(state.get_peers(), vec![5002]);
}

#[test]
fn own_message_is_not_recorded() {
    let mut state = node(5000, &[]);
    assert!(!checked_and_recorded(4, 5000, 5002, &mut state, 9 * SECOND));
    assert!(!state.has_seen_message(5000, 4));
    assert!(state.get_peers().is_empty());
}

#[test]
fn pong_message_takes_the_next_id() {
    let mut state = node(5000, &[]);
    assert_eq!(prepare_pong_message(&mut state), Message::Pong { msg_id: 1, msg_originator: 5000 });
    assert_eq!(prepare_pong_message(&mut state), Message::Pong { msg_id: 2, msg_originator: 5000 });
}

#[test]
fn forwarded_prime_has_one_hop_less() {
    let state = node(5000, &[5001]);
    let (message, peers) = prepare_prime_message(9, 2, 6000, 13, &state);
    assert_eq!(
        message,
        Message::Prime { msg_id: 9, ttl: 1, msg_originator: 6000, msg_forwarder: 5000, data: 13 }
    );
    assert_eq!(peers, vec![5001]);
}

#[test]
fn ping_is_answered_with_a_pong() {
    let mut state = node(5000, &[]);
    let out = respond(Message::Ping { msg_id: 3, msg_originator: 5001 }, &mut state, 4 * SECOND);
    assert_eq!(out, vec![(5001, Message::Pong { msg_id: 1, msg_originator: 5000 })]);
    assert!(state.has_seen_message(5001, 3));
    assert_eq!(state.last_heard_from(5001), Some(4 * SECOND));
}

#[test]
fn second_delivery_gets_no_reply() {
    let mut state = node(5000, &[]);
    let ping = Message::Ping { msg_id: 3, msg_originator: 5001 };
    assert_eq!(respond(ping, &mut state, 4 * SECOND).len(), 1);
    assert!(respond(ping, &mut state, 6 * SECOND).is_empty());
    assert_eq!(state.last_msg_id(), 1);
    assert_eq!(state.last_heard_from(5001), Some(4 * SECOND));

    let prime =
        Message::Prime { msg_id: 8, ttl: 2, msg_originator: 5001, msg_forwarder: 5001, data: 5 };
    assert_eq!(respond(prime, &mut state, 7 * SECOND).len(), 1);
    assert!(respond(prime, &mut state, 8 * SECOND).is_empty());
}

#[test]
fn own_ping_is_ignored() {
    let mut state = node(5000, &[5001]);
    let out = respond(Message::Ping { msg_id: 3, msg_originator: 5000 }, &mut state, 4 * SECOND);
    assert!(out.is_empty());
    assert!(!state.has_seen_message(5000, 3));
    assert_eq!(state.last_msg_id(), 0);
    assert_eq!(state.get_peers(), vec![5001]);
    assert_eq!(state.last_heard_from(5001), Some(SECOND));
}

#[test]
fn pong_is_recorded_and_not_answered() {
    let mut state = node(5000, &[]);
    let out = respond(Message::Pong { msg_id: 3, msg_originator: 5001 }, &mut state, 4 * SECOND);
    assert!(out.is_empty());
    assert!(state.has_seen_message(5001, 3));
    assert_eq!(state.get_peers(), vec![5001]);
    assert_eq!(state.last_msg_id(), 0);
}

#[test]
fn prime_without_hops_is_recorded_and_not_forwarded() {
    let mut state = node(5000, &[5001, 5002]);
    let prime =
        Message::Prime { msg_id: 8, ttl: 0, msg_originator: 6000, msg_forwarder: 5001, data: 5 };
    assert!(respond(prime, &mut state, 4 * SECOND).is_empty());
    assert!(state.has_seen_message(6000, 8));
    assert_eq!(state.last_heard_from(5001), Some(4 * SECOND));
    assert_eq!(state.last_heard_from(6000), None);
}

#[test]
fn prime_travels_two_hops_and_stops() {
    let sent =
        Message::Prime { msg_id: 8, ttl: 2, msg_originator: 6000, msg_forwarder: 6000, data: 7 };
    let mut first = node(5000, &[5001]);
    let out = respond(sent, &mut first, 4 * SECOND);
    let hop = Message::Prime { msg_id: 8, ttl: 1, msg_originator: 6000, msg_forwarder: 5000, data: 7 };
    assert_eq!(by_recipient(out), vec![(5001, hop), (6000, hop)]);

    let mut second = node(5001, &[5002]);
    let out = respond(hop, &mut second, 4 * SECOND);
    let last = Message::Prime { msg_id: 8, ttl: 0, msg_originator: 6000, msg_forwarder: 5001, data: 7 };
    assert_eq!(by_recipient(out), vec![(5000, last), (5002, last)]);

    let mut third = node(5002, &[5003]);
    assert!(respond(last, &mut third, 4 * SECOND).is_empty());
    assert!(third.has_seen_message(6000, 8));
}

#[test]
fn received_prime_does_not_change_the_biggest_prime() {
    let mut state = node(5000, &[]);
    let prime =
        Message::Prime { msg_id: 8, ttl: 2, msg_originator: 6000, msg_forwarder: 6001, data: 31 };
    respond(prime, &mut state, 4 * SECOND);
    assert_eq!(state.biggest_prime(), 2);
    assert_eq!(state.biggest_prime_sender(), 5000);
    assert_eq!(state.get_peers(), vec![6001]);
}

#[test]
fn respond_action_is_respond() {
    let mut state = node(5000, &[]);
    let ping = Message::Ping { msg_id: 3, msg_originator: 5001 };
    let out = handle_at(Actions::Respond(ping), &mut state, 4 * SECOND);
    assert_eq!(out, vec![(5001, Message::Pong { msg_id: 1, msg_originator: 5000 })]);
}

#[test]
fn handle_reads_the_clock() {
    let mut state = node(5000, &[5001]);
    let ping = Message::Ping { msg_id: 3, msg_originator: 5002 };
    let out = handle(Actions::Respond(ping), &mut state);
    assert_eq!(out, vec![(5002, Message::Pong { msg_id: 1, msg_originator: 5000 })]);
    assert!(state.last_heard_from(5002).unwrap() > 1_600_000_000 * SECOND);

    assert!(handle(Actions::EvictStalePeers, &mut state).is_empty());
    assert_eq!(state.get_peers(), vec![5002]);
}

#[test]
fn eviction_by_the_clock_drops_old_peers() {
    let mut state = node(5000, &[5001]);
    state.add_peer(5002);
    evict_stale_peers(&mut state);
    assert_eq!(state.get_peers(), vec![5002]);
}

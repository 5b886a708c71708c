//! What a node does on a timer tick and on an inbound message: how its
//! state changes, and which messages it sends to whom.

use crate::exponent_table::next_passing_exponent;
use crate::mersenne_prime::{is_next_exponent, LAST_EXPONENT};
use crate::message::{Message, Port};
use crate::state::{current_time, State, StateView, Timestamp};
use vstd::prelude::*;

verus! {

/// The number of hops that a freshly announced exponent may take.
pub const INITIAL_TTL: u32 = 2;

/// Seconds between two rounds of pings.
pub const PING_INTERVAL_SECS: u64 = 5;

/// Seconds between two evictions of stale peers.
pub const EVICTION_INTERVAL_SECS: u64 = 2;

/// Seconds between two announcements of a new exponent.
pub const GOSSIP_INTERVAL_SECS: u64 = 10;

/// One unit of work for a node.
#[derive(Clone, Copy, Debug, PartialEq, Eq, Structural)]
pub enum Actions {
    /// Send a ping to every peer.
    PingEveryone,
    /// Drop the peers that have been silent for too long.
    EvictStalePeers,
    /// Find the next exponent and announce it to every peer.
    GossipMersennePrime,
    /// React to a message that came in.
    Respond(Message),
}

/// The seconds between two ticks of `action`, for the actions that a
/// timer sets off; a reaction to a message has no timer.
pub open spec fn period_of(action: Actions) -> Option<u64> {
    match action {
        Actions::PingEveryone => Some(PING_INTERVAL_SECS),
        Actions::EvictStalePeers => Some(EVICTION_INTERVAL_SECS),
        Actions::GossipMersennePrime => Some(GOSSIP_INTERVAL_SECS),
        Actions::Respond(_) => None,
    }
}

impl Actions {
    /// The seconds between two ticks of this action, if a timer sets it
    /// off. The first tick comes one period after the start.
    pub fn period_secs(&self) -> (period: Option<u64>)
        ensures
            period == period_of(*self),
    {
        match self {
            Actions::PingEveryone => Some(PING_INTERVAL_SECS),
            Actions::EvictStalePeers => Some(EVICTION_INTERVAL_SECS),
            Actions::GossipMersennePrime => Some(GOSSIP_INTERVAL_SECS),
            Actions::Respond(_) => None,
        }
    }
}

/// What a node sends in reaction to a message.
pub enum Reaction {
    /// Nothing is sent.
    Nothing,
    /// One message goes to one node.
    Reply { to: Port, message: Message },
    /// The same message goes to every peer.
    Flood { message: Message },
}

/// The recipients of the messages in `out`, in order.
pub open spec fn recipients(out: Seq<(Port, Message)>) -> Seq<Port> {
    out.map_values(|o: (Port, Message)| o.0)
}

/// `out` holds one message for each of `peers` and no other.
pub open spec fn reaches_each_once(out: Seq<(Port, Message)>, peers: Set<Port>) -> bool {
    &&& recipients(out).no_duplicates()
    &&& recipients(out).to_set() == peers
}

/// `out` is a round of pings from the node in state `s`: one for each
/// peer, with the message ids that follow the last one handed out, in the
/// order of `out`.
pub open spec fn is_ping_round(s: StateView, out: Seq<(Port, Message)>) -> bool {
    &&& reaches_each_once(out, s.peers.dom())
    &&& forall|i: int|
        0 <= i < out.len() ==> (#[trigger] out[i]).1 == (Message::Ping {
            msg_id: (s.msg_id + i + 1) as u32,
            msg_originator: s.port,
        })
}

/// `out` carries `message` to each of `peers` once.
pub open spec fn is_flood(out: Seq<(Port, Message)>, message: Message, peers: Set<Port>) -> bool {
    &&& reaches_each_once(out, peers)
    &&& forall|i: int| 0 <= i < out.len() ==> (#[trigger] out[i]).1 == message
}

/// `out` is what `reaction` asks a node with the peers `peers` to send.
pub open spec fn carries_out(out: Seq<(Port, Message)>, reaction: Reaction, peers: Set<Port>) -> bool {
    match reaction {
        Reaction::Nothing => out.len() == 0,
        Reaction::Reply { to, message } => out == seq![(to, message)],
        Reaction::Flood { message } => is_flood(out, message, peers),
    }
}

/// The node in state `s` has not handled the message `msg_id` of
/// `originator`, and did not create it.
pub open spec fn is_fresh(s: StateView, msg_id: u32, originator: Port) -> bool {
    originator != s.port && !s.received_messages.contains((originator, msg_id))
}

/// The state after the message `msg_id` of `originator` came in from
/// `forwarder` at `now`: a fresh message is noted and its forwarder is
/// heard from; any other message changes nothing.
pub open spec fn check_and_record(
    s: StateView,
    msg_id: u32,
    originator: Port,
    forwarder: Port,
    now: Timestamp,
) -> StateView {
    if is_fresh(s, msg_id, originator) {
        s.record_received(originator, msg_id).add_peer(forwarder, now)
    } else {
        s
    }
}

/// The state of a node after `message` came in at `now`.
pub open spec fn respond_state(s: StateView, message: Message, now: Timestamp) -> StateView {
    match message {
        Message::Ping { msg_id, msg_originator } => {
            if is_fresh(s, msg_id, msg_originator) {
                check_and_record(s, msg_id, msg_originator, msg_originator, now).take_msg_ids(1)
            } else {
                s
            }
        },
        Message::Pong { msg_id, msg_originator } => check_and_record(
            s,
            msg_id,
            msg_originator,
            msg_originator,
            now,
        ),
        Message::Prime { msg_id, ttl, msg_originator, msg_forwarder, data } => check_and_record(
            s,
            msg_id,
            msg_originator,
            msg_forwarder,
            now,
        ),
    }
}

/// What a node in state `s` sends when `message` comes in: a pong for a
/// fresh ping, a copy with one hop less for a fresh announcement that has
/// hops left, and nothing otherwise.
pub open spec fn reaction(s: StateView, message: Message) -> Reaction {
    match message {
        Message::Ping { msg_id, msg_originator } => {
            if is_fresh(s, msg_id, msg_originator) {
                Reaction::Reply {
                    to: msg_originator,
                    message: Message::Pong {
                        msg_id: (s.msg_id + 1) as u32,
                        msg_originator: s.port,
                    },
                }
            } else {
                Reaction::Nothing
            }
        },
        Message::Pong { msg_id, msg_originator } => Reaction::Nothing,
        Message::Prime { msg_id, ttl, msg_originator, msg_forwarder, data } => {
            if is_fresh(s, msg_id, msg_originator) && ttl > 0 {
                Reaction::Flood {
                    message: Message::Prime {
                        msg_id,
                        ttl: (ttl - 1) as u32,
                        msg_originator,
                        msg_forwarder: s.port,
                        data,
                    },
                }
            } else {
                Reaction::Nothing
            }
        },
    }
}

/// The number of message ids that a node in state `s` hands out for
/// `action`.
pub open spec fn msg_ids_needed(s: StateView, action: Actions) -> nat {
    match action {
        Actions::PingEveryone => s.peers.dom().len(),
        Actions::EvictStalePeers => 0,
        Actions::GossipMersennePrime => 1,
        Actions::Respond(message) => match message {
            Message::Ping { msg_id, msg_originator } => if is_fresh(s, msg_id, msg_originator) {
                1
            } else {
                0
            },
            _ => 0,
        },
    }
}

/// The originator and the id of `message`.
pub open spec fn message_identity(message: Message) -> (Port, u32) {
    match message {
        Message::Ping { msg_id, msg_originator } => (msg_originator, msg_id),
        Message::Pong { msg_id, msg_originator } => (msg_originator, msg_id),
        Message::Prime { msg_id, ttl, msg_originator, msg_forwarder, data } => (
            msg_originator,
            msg_id,
        ),
    }
}

/// A message that comes in a second time is ignored: the node sends
/// nothing, and its state stays as the first delivery left it.
pub proof fn lemma_second_delivery_is_ignored(
    s: StateView,
    message: Message,
    first: Timestamp,
    second: Timestamp,
)
    ensures
        reaction(respond_state(s, message, first), message) == Reaction::Nothing,
        respond_state(respond_state(s, message, first), message, second) == respond_state(
            s,
            message,
            first,
        ),
{
}

/// A message that the node created itself is ignored, whatever its kind:
/// the node sends nothing and its state does not change.
pub proof fn lemma_own_message_is_ignored(s: StateView, message: Message, now: Timestamp)
    requires
        message_identity(message).0 == s.port,
    ensures
        reaction(s, message) == Reaction::Nothing,
        respond_state(s, message, now) == s,
{
}

/// A fresh announcement is noted whatever its hop budget, and it leaves
/// the largest exponent known as it was. With no hops left nothing is
/// sent; otherwise every peer gets a copy with one hop less, this node as
/// its forwarder, and the id, originator and exponent unchanged.
pub proof fn lemma_announcement_is_passed_on(
    s: StateView,
    msg_id: u32,
    ttl: u32,
    msg_originator: Port,
    msg_forwarder: Port,
    data: u32,
    now: Timestamp,
)
    requires
        is_fresh(s, msg_id, msg_originator),
    ensures
        ({
            let message = Message::Prime { msg_id, ttl, msg_originator, msg_forwarder, data };
            let after = respond_state(s, message, now);
            &&& after.received_messages.contains((msg_originator, msg_id))
            &&& after.biggest_prime == s.biggest_prime
            &&& after.biggest_prime_sender == s.biggest_prime_sender
            &&& msg_forwarder != s.port ==> after.peers.contains_key(msg_forwarder)
                && after.peers[msg_forwarder] == now
            &&& ttl == 0 ==> reaction(s, message) == Reaction::Nothing
            &&& ttl > 0 ==> reaction(s, message) == (Reaction::Flood {
                message: Message::Prime {
                    msg_id,
                    ttl: (ttl - 1) as u32,
                    msg_originator,
                    msg_forwarder: s.port,
                    data,
                },
            })
        }),
{
}

/// An announcement that starts with two hops is passed on twice and no
/// further: the node `a` that gets it first sends a copy with one hop, a
/// node `b` that gets that copy sends one with none, and a node `c` that
/// gets that one sends nothing.
pub proof fn lemma_announcement_stops_after_two_hops(
    a: StateView,
    b: StateView,
    c: StateView,
    msg_id: u32,
    msg_originator: Port,
    msg_forwarder: Port,
    data: u32,
)
    requires
        is_fresh(a, msg_id, msg_originator),
        is_fresh(b, msg_id, msg_originator),
        is_fresh(c, msg_id, msg_originator),
    ensures
        ({
            let sent = Message::Prime { msg_id, ttl: INITIAL_TTL, msg_originator, msg_forwarder, data };
            let first = Message::Prime {
                msg_id,
                ttl: 1,
                msg_originator,
                msg_forwarder: a.port,
                data,
            };
            let second = Message::Prime {
                msg_id,
                ttl: 0,
                msg_originator,
                msg_forwarder: b.port,
                data,
            };
            &&& reaction(a, sent) == (Reaction::Flood { message: first })
            &&& reaction(b, first) == (Reaction::Flood { message: second })
            &&& reaction(c, second) == Reaction::Nothing
        }),
{
}

/// Pairs each of `peers` with `message`.
fn address_to_all(peers: Vec<Port>, message: Message) -> (out: Vec<(Port, Message)>)
    ensures
        recipients(out@) == peers@,
        forall|i: int| 0 <= i < out@.len() ==> (#[trigger] out@[i]).1 == message,
{
    let mut out: Vec<(Port, Message)> = Vec::new();
    let mut i: usize = 0;
    while i < peers.len()
        invariant
            i <= peers.len(),
            out@.len() == i,
            forall|j: int| 0 <= j < i ==> #[trigger] out@[j] == (peers@[j], message),
        decreases peers.len() - i,
    {
        out.push((peers[i], message));
        i += 1;
    }
    assert(recipients(out@) =~= peers@);
    out
}

/// Builds one ping for each peer, each with a message id of its own.
pub fn prepare_ping_messages(state: &mut State) -> (out: Vec<(Port, Message)>)
    requires
        old(state).wf(),
        old(state)@.msg_id + old(state)@.peers.dom().len() <= u32::MAX,
    ensures
        is_ping_round(old(state)@, out@),
        final(state)@ == old(state)@.take_msg_ids(old(state)@.peers.dom().len()),
        final(state).wf(),
{
    let peers = state.get_peers();
    proof {
        peers@.unique_seq_to_set();
    }
    let mut out: Vec<(Port, Message)> = Vec::new();
    let mut i: usize = 0;
    while i < peers.len()
        invariant
            i <= peers.len(),
            peers@.len() == old(state)@.peers.dom().len(),
            old(state)@.msg_id + peers@.len() <= u32::MAX,
            out@.len() == i,
            state.wf(),
            state@ == old(state)@.take_msg_ids(i as nat),
            forall|j: int|
                0 <= j < i ==> #[trigger] out@[j] == (
                    peers@[j],
                    Message::Ping {
                        msg_id: (old(state)@.msg_id + j + 1) as u32,
                        msg_originator: old(state)@.port,
                    },
                ),
        decreases peers.len() - i,
    {
        let msg_id = state.get_next_msg_id();
        let msg_originator = state.my_port();
        out.push((peers[i], Message::Ping { msg_id, msg_originator }));
        i += 1;
    }
    assert(recipients(out@) =~= peers@);
    out
}

/// Drops the peers that are stale now, by the system clock.
pub fn evict_stale_peers(state: &mut State)
    requires
        old(state).wf(),
    ensures
        exists|now: Timestamp| final(state)@ == old(state)@.evict_stale(now),
        final(state).wf(),
{
    state.evict_stale_peers();
}

/// Finds the next exponent and builds its announcement, with the peers
/// that it goes to.
pub fn generate_next_prime_message(state: &mut State) -> (out: (Vec<Port>, Message))
    requires
        old(state).wf(),
        old(state)@.biggest_prime < LAST_EXPONENT,
        old(state)@.msg_id < u32::MAX,
    ensures
        is_next_exponent(old(state)@.biggest_prime as nat, final(state)@.biggest_prime as nat),
        final(state)@.biggest_prime == next_passing_exponent(old(state)@.biggest_prime as nat),
        final(state)@ == old(state)@.capture_prime(
            old(state)@.port,
            final(state)@.biggest_prime,
        ).take_msg_ids(1),
        out.1 == (Message::Prime {
            msg_id: (old(state)@.msg_id + 1) as u32,
            ttl: INITIAL_TTL,
            msg_originator: old(state)@.port,
            msg_forwarder: old(state)@.port,
            data: final(state)@.biggest_prime,
        }),
        out.0@.no_duplicates(),
        out.0@.to_set() == old(state)@.peers.dom(),
        final(state).wf(),
{
    let msg_originator = state.my_port();
    let data = state.generate_next_mersenne_prime();
    let msg_id = state.get_next_msg_id();
    (
        state.get_peers(),
        Message::Prime { msg_id, ttl: INITIAL_TTL, msg_originator, msg_forwarder: msg_originator, data },
    )
}

/// Decides whether a message that came in at `now` is fresh. A fresh
/// message is noted, and its forwarder is heard from.
pub fn checked_and_recorded(
    msg_id: u32,
    msg_originator: Port,
    msg_forwarder: Port,
    state: &mut State,
    now: Timestamp,
) -> (fresh: bool)
    requires
        old(state).wf(),
    ensures
        fresh == is_fresh(old(state)@, msg_id, msg_originator),
        final(state)@ == check_and_record(old(state)@, msg_id, msg_originator, msg_forwarder, now),
        final(state).wf(),
{
    if state.has_seen_message(msg_originator, msg_id) || msg_originator == state.my_port() {
        return false;
    }
    state.record_received_message(msg_originator, msg_id);
    state.update_last_heard_from_at(msg_forwarder, now);
    true
}

/// Builds the answer to a ping.
pub fn prepare_pong_message(state: &mut State) -> (pong: Message)
    requires
        old(state).wf(),
        old(state)@.msg_id < u32::MAX,
    ensures
        pong == (Message::Pong {
            msg_id: (old(state)@.msg_id + 1) as u32,
            msg_originator: old(state)@.port,
        }),
        final(state)@ == old(state)@.take_msg_ids(1),
        final(state).wf(),
{
    let msg_originator = state.my_port();
    let msg_id = state.get_next_msg_id();
    Message::Pong { msg_originator, msg_id }
}

/// Builds the copy of an announcement that this node passes on, with one
/// hop less, and the peers that it goes to.
pub fn prepare_prime_message(
    msg_id: u32,
    ttl: u32,
    msg_originator: Port,
    data: u32,
    state: &State,
) -> (out: (Message, Vec<Port>))
    requires
        ttl > 0,
    ensures
        out.0 == (Message::Prime {
            msg_id,
            ttl: (ttl - 1) as u32,
            msg_originator,
            msg_forwarder: state@.port,
            data,
        }),
        out.1@.no_duplicates(),
        out.1@.to_set() == state@.peers.dom(),
{
    (
        Message::Prime { msg_id, msg_forwarder: state.my_port(), ttl: ttl - 1, msg_originator, data },
        state.get_peers(),
    )
}

/// Reacts to `message`, which came in at `now`: updates the state and
/// returns the messages to send, each with its recipient.
pub fn respond(message: Message, state: &mut State, now: Timestamp) -> (out: Vec<(Port, Message)>)
    requires
        old(state).wf(),
        old(state)@.msg_id + msg_ids_needed(old(state)@, Actions::Respond(message)) <= u32::MAX,
    ensures
        final(state)@ == respond_state(old(state)@, message, now),
        carries_out(out@, reaction(old(state)@, message), final(state)@.peers.dom()),
        final(state).wf(),
{
    match message {
        Message::Ping { msg_id, msg_originator } => {
            if !checked_and_recorded(msg_id, msg_originator, msg_originator, state, now) {
                return Vec::new();
            }
            let pong_message = prepare_pong_message(state);
            let mut out: Vec<(Port, Message)> = Vec::new();
            out.push((msg_originator, pong_message));
            assert(out@ =~= seq![(msg_originator, pong_message)]);
            out
        },
        Message::Pong { msg_id, msg_originator } => {
            checked_and_recorded(msg_id, msg_originator, msg_originator, state, now);
            Vec::new()
        },
        Message::Prime { msg_id, ttl, msg_originator, msg_forwarder, data } => {
            if !checked_and_recorded(msg_id, msg_originator, msg_forwarder, state, now) {
                return Vec::new();
            }
            if ttl > 0 {
                let (message_to_forward, peers) = prepare_prime_message(
                    msg_id,
                    ttl,
                    msg_originator,
                    data,
                    state,
                );
                address_to_all(peers, message_to_forward)
            } else {
                Vec::new()
            }
        },
    }
}

/// What holds of the state and of the messages to send once `action`
/// was carried out at `now` in the state `before`.
pub open spec fn is_outcome(
    before: StateView,
    action: Actions,
    now: Timestamp,
    after: StateView,
    out: Seq<(Port, Message)>,
) -> bool {
    match action {
        Actions::PingEveryone => {
            &&& is_ping_round(before, out)
            &&& after == before.take_msg_ids(before.peers.dom().len())
        },
        Actions::EvictStalePeers => {
            &&& out.len() == 0
            &&& after == before.evict_stale(now)
        },
        Actions::GossipMersennePrime => {
            let next = after.biggest_prime;
            &&& is_next_exponent(before.biggest_prime as nat, next as nat)
            &&& next == next_passing_exponent(before.biggest_prime as nat)
            &&& after == before.capture_prime(before.port, next).take_msg_ids(1)
            &&& is_flood(
                out,
                Message::Prime {
                    msg_id: (before.msg_id + 1) as u32,
                    ttl: INITIAL_TTL,
                    msg_originator: before.port,
                    msg_forwarder: before.port,
                    data: next,
                },
                before.peers.dom(),
            )
        },
        Actions::Respond(message) => {
            &&& after == respond_state(before, message, now)
            &&& carries_out(out, reaction(before, message), after.peers.dom())
        },
    }
}

/// Whatever a node does, it stays the same node and never becomes its
/// own peer; its largest exponent and its last message id do not go down,
/// and no handled message is forgotten. Only an eviction drops peers, and
/// an eviction adds none.
pub proof fn lemma_outcome_keeps_invariants(
    before: StateView,
    action: Actions,
    now: Timestamp,
    after: StateView,
    out: Seq<(Port, Message)>,
)
    requires
        before.wf(),
        before.msg_id + msg_ids_needed(before, action) <= u32::MAX,
        is_outcome(before, action, now, after, out),
    ensures
        after.wf(),
        after.name == before.name,
        after.port == before.port,
        after.awake == before.awake,
        before.biggest_prime <= after.biggest_prime,
        before.msg_id <= after.msg_id,
        before.received_messages.subset_of(after.received_messages),
        action != Actions::EvictStalePeers ==> before.peers.dom().subset_of(after.peers.dom()),
        action == Actions::EvictStalePeers ==> after.peers.dom().subset_of(before.peers.dom()),
{
    if action == Actions::EvictStalePeers {
        crate::state::lemma_eviction_keeps_recent(before, before.port, now);
    }
}

/// Carries out `action` at `now`: updates the state and returns the
/// messages to send, each with its recipient. The message ids that the
/// action takes must be left, and an announcement needs a largest exponent
/// below the last one that the search reaches.
pub fn handle_at(action: Actions, state: &mut State, now: Timestamp) -> (out: Vec<(Port, Message)>)
    requires
        old(state).wf(),
        old(state)@.msg_id + msg_ids_needed(old(state)@, action) <= u32::MAX,
        action == Actions::GossipMersennePrime ==> old(state)@.biggest_prime < LAST_EXPONENT,
    ensures
        final(state).wf(),
        is_outcome(old(state)@, action, now, final(state)@, out@),
{
    match action {
        Actions::PingEveryone => prepare_ping_messages(state),
        Actions::EvictStalePeers => {
            state.evict_stale_peers_at(now);
            Vec::new()
        },
        Actions::GossipMersennePrime => {
            let (peers, message) = generate_next_prime_message(state);
            address_to_all(peers, message)
        },
        Actions::Respond(message) => respond(message, state, now),
    }
}

/// Carries out `action` now, by the system clock: updates the state and
/// returns the messages to send, each with its recipient, as `handle_at`
/// does for the time that the clock gave.
pub fn handle(action: Actions, state: &mut State) -> (out: Vec<(Port, Message)>)
    requires
        old(state).wf(),
        old(state)@.msg_id + msg_ids_needed(old(state)@, action) <= u32::MAX,
        action == Actions::GossipMersennePrime ==> old(state)@.biggest_prime < LAST_EXPONENT,
    ensures
        final(state).wf(),
        exists|now: Timestamp| is_outcome(old(state)@, action, now, final(state)@, out@),
{
    let now = current_time();
    let out = handle_at(action, state, now);
    assert(is_outcome(old(state)@, action, now, state@, out@));
    out
}

} // verus!

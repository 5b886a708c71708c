//! The state of one node: who it is, which peers it has heard from and
//! when, the largest exponent it knows, and which messages it has already
//! handled.

use crate::exponent_table::next_passing_exponent;
use crate::mersenne_prime::{find_next_mersenne_prime, is_next_exponent, LAST_EXPONENT};
use crate::message::Port;
use std::collections::{HashMap, HashSet};
use std::time::{SystemTime, UNIX_EPOCH};
use vstd::prelude::*;
use vstd::std_specs::iter::IteratorSpec;

verus! {

/// A point in time, in nanoseconds since the Unix epoch.
pub type Timestamp = u128;

/// A peer is stale once more than this many nanoseconds have passed since
/// it was last heard from: ten seconds.
pub const STALE_AFTER_NANOS: u128 = 10_000_000_000;

/// A peer last heard from at `last_heard` is stale at `now`. A peer heard
/// from after `now` is not stale.
pub open spec fn is_stale_at(last_heard: Timestamp, now: Timestamp) -> bool {
    now - last_heard > STALE_AFTER_NANOS
}

/// The mathematical content of a `State`.
pub struct StateView {
    pub name: Seq<char>,
    pub port: Port,
    /// Each peer with the time it was last heard from.
    pub peers: Map<Port, Timestamp>,
    pub biggest_prime: u32,
    pub biggest_prime_sender: Port,
    /// The message id handed out last; 0 before the first.
    pub msg_id: u32,
    pub awake: bool,
    /// The messages handled so far, each as its originator and its id.
    pub received_messages: Set<(Port, u32)>,
}

impl StateView {
    /// A node is not its own peer, and it has finitely many peers.
    pub open spec fn wf(self) -> bool {
        &&& !self.peers.contains_key(self.port)
        &&& self.peers.dom().finite()
    }

    /// The state of a node that has just started.
    pub open spec fn initial(name: Seq<char>, port: Port) -> StateView {
        StateView {
            name,
            port,
            peers: Map::empty(),
            biggest_prime: 2,
            biggest_prime_sender: port,
            msg_id: 0,
            awake: true,
            received_messages: Set::empty(),
        }
    }

    /// The state after `peer` was heard from at `now`. Hearing from
    /// oneself changes nothing.
    pub open spec fn add_peer(self, peer: Port, now: Timestamp) -> StateView {
        if peer == self.port {
            self
        } else {
            StateView { peers: self.peers.insert(peer, now), ..self }
        }
    }

    /// The peers that are not stale at `now`.
    pub open spec fn fresh_peers(self, now: Timestamp) -> Map<Port, Timestamp> {
        Map::new(
            |p: Port| self.peers.contains_key(p) && !is_stale_at(self.peers[p], now),
            |p: Port| self.peers[p],
        )
    }

    /// The state after the peers that are stale at `now` were dropped.
    pub open spec fn evict_stale(self, now: Timestamp) -> StateView {
        StateView { peers: self.fresh_peers(now), ..self }
    }

    /// The state after `prime` from `sender` became the largest exponent.
    pub open spec fn capture_prime(self, sender: Port, prime: u32) -> StateView {
        StateView { biggest_prime: prime, biggest_prime_sender: sender, ..self }
    }

    /// The state after `count` message ids were handed out.
    pub open spec fn take_msg_ids(self, count: nat) -> StateView
        recommends
            self.msg_id + count <= u32::MAX,
    {
        StateView { msg_id: (self.msg_id + count) as u32, ..self }
    }

    /// The state after the message `msg_id` of `originator` was handled.
    pub open spec fn record_received(self, originator: Port, msg_id: u32) -> StateView {
        StateView {
            received_messages: self.received_messages.insert((originator, msg_id)),
            ..self
        }
    }
}

/// The state after the peers `ids` were heard from one after the other,
/// the i-th of them at `times[i]`.
pub open spec fn add_peers(s: StateView, ids: Seq<Port>, times: Seq<Timestamp>) -> StateView
    decreases ids.len(),
{
    if ids.len() == 0 || times.len() != ids.len() {
        s
    } else {
        add_peers(s, ids.drop_last(), times.drop_last()).add_peer(ids.last(), times.last())
    }
}

/// However often and in whatever order peers are added, the peers
/// afterwards are those before and each added port other than the node's
/// own, once. On a node without peers their number is therefore the
/// number of distinct ports added, the node's own port not counted.
pub proof fn lemma_add_peers_counts_distinct(s: StateView, ids: Seq<Port>, times: Seq<Timestamp>)
    requires
        s.wf(),
        ids.len() == times.len(),
    ensures
        add_peers(s, ids, times).wf(),
        add_peers(s, ids, times).peers.dom() == s.peers.dom().union(
            ids.to_set().remove(s.port),
        ),
        add_peers(s, ids, times) == (StateView { peers: add_peers(s, ids, times).peers, ..s }),
        s.peers.dom().is_empty() ==> add_peers(s, ids, times).peers.dom().len()
            == ids.to_set().remove(s.port).len(),
        s.peers.dom().is_empty() && !ids.contains(s.port) ==> add_peers(
            s,
            ids,
            times,
        ).peers.dom().len() == ids.to_set().len(),
    decreases ids.len(),
{
    let after = add_peers(s, ids, times);
    if ids.len() > 0 {
        let front = ids.drop_last();
        lemma_add_peers_counts_distinct(s, front, times.drop_last());
        assert(ids =~= front.push(ids.last()));
        assert forall|p: Port| ids.to_set().contains(p) <==> (front.to_set().contains(p) || p
            == ids.last()) by {
            if front.to_set().contains(p) {
                let j = choose|j: int| 0 <= j < front.len() && front[j] == p;
                assert(ids[j] == p);
            }
            if p == ids.last() {
                assert(ids[ids.len() - 1] == p);
            }
        }
        assert(after.peers.dom() =~= s.peers.dom().union(ids.to_set().remove(s.port)));
    } else {
        assert(ids.to_set() =~= Set::empty());
        assert(after.peers.dom() =~= s.peers.dom().union(ids.to_set().remove(s.port)));
    }
    if s.peers.dom().is_empty() {
        assert(after.peers.dom() =~= ids.to_set().remove(s.port));
        if !ids.contains(s.port) {
            assert(ids.to_set().remove(s.port) =~= ids.to_set());
        }
    }
}

/// An eviction at `now` keeps a peer exactly when at most ten seconds
/// have passed since it was last heard from, and it neither adds a peer
/// nor changes a time.
pub proof fn lemma_eviction_keeps_recent(s: StateView, peer: Port, now: Timestamp)
    requires
        s.wf(),
    ensures
        s.evict_stale(now).wf(),
        s.evict_stale(now).peers.contains_key(peer) <==> (s.peers.contains_key(peer) && now
            - s.peers[peer] <= STALE_AFTER_NANOS),
        s.evict_stale(now).peers.contains_key(peer) ==> s.evict_stale(now).peers[peer]
            == s.peers[peer],
{
    assert(s.evict_stale(now).peers.dom().subset_of(s.peers.dom()));
    vstd::set_lib::lemma_len_subset(s.evict_stale(now).peers.dom(), s.peers.dom());
}

/// A peer that was heard from at `heard` and not again is still there
/// after an eviction nine seconds later, and gone after one eleven
/// seconds later.
pub proof fn lemma_evicted_between_nine_and_eleven_seconds(
    s: StateView,
    peer: Port,
    heard: Timestamp,
)
    requires
        peer != s.port,
        heard + 11_000_000_000 <= u128::MAX,
    ensures
        s.add_peer(peer, heard).evict_stale((heard + 9_000_000_000) as u128).peers.contains_key(
            peer,
        ),
        !s.add_peer(peer, heard).evict_stale(
            (heard + 11_000_000_000) as u128,
        ).peers.contains_key(peer),
{
}

/// The message ids of a node count up from 1: after `n` ids the last one
/// handed out is `n`, so the next is `n + 1`.
pub proof fn lemma_msg_ids_count_from_one(name: Seq<char>, port: Port, n: nat)
    requires
        n <= u32::MAX,
    ensures
        StateView::initial(name, port).msg_id == 0,
        StateView::initial(name, port).take_msg_ids(n).msg_id == n,
{
}

/// Handing out ids in two batches is handing them out in one, and every
/// id handed out is larger than all before it.
pub proof fn lemma_msg_ids_increase(s: StateView, a: nat, b: nat)
    requires
        s.msg_id + a + b <= u32::MAX,
    ensures
        s.take_msg_ids(a).take_msg_ids(b) == s.take_msg_ids(a + b),
        b > 0 ==> s.take_msg_ids(a).msg_id < s.take_msg_ids(a + b).msg_id,
{
}

/// A node that has just started has handled no message. A message is
/// handled once it is recorded, and recording it says nothing new of any
/// other message.
pub proof fn lemma_seen_once_recorded(s: StateView, originator: Port, msg_id: u32, other: (Port, u32))
    ensures
        !StateView::initial(s.name, s.port).received_messages.contains((originator, msg_id)),
        s.record_received(originator, msg_id).received_messages.contains((originator, msg_id)),
        other != (originator, msg_id) ==> (s.record_received(
            originator,
            msg_id,
        ).received_messages.contains(other) <==> s.received_messages.contains(other)),
{
}

/// The key under which the message `msg_id` of `originator` is filed: the
/// originator in the upper 32 bits, the id in the lower.
pub open spec fn message_key(originator: Port, msg_id: u32) -> u64 {
    (originator * 0x1_0000_0000 + msg_id) as u64
}

fn compute_message_key(originator: Port, msg_id: u32) -> (key: u64)
    ensures
        key == message_key(originator, msg_id),
{
    (originator as u64) * 0x1_0000_0000 + (msg_id as u64)
}

/// `SystemTime::now`, as the nanoseconds between the Unix epoch and the
/// reading, or `None` where the clock stands before the epoch. Nothing is
/// claimed of the value.
#[verifier::external_body]
fn since_epoch() -> (elapsed: Option<u128>) {
    SystemTime::now().duration_since(UNIX_EPOCH).ok().map(|elapsed| elapsed.as_nanos())
}

/// The time now, by the system clock. A clock that stands before the
/// epoch reads as the epoch. Nothing holds of every reading of a clock,
/// so nothing is promised of the result; what becomes of a reading is
/// stated by `timestamp_of`.
pub(crate) fn current_time() -> (now: Timestamp) {
    timestamp_of(since_epoch())
}

/// The point in time that a reading of the clock stands for: the
/// nanoseconds since the epoch where there are any, and the epoch itself
/// for a clock that stands before it.
pub open spec fn reading_as_timestamp(reading: Option<u128>) -> Timestamp {
    match reading {
        Some(elapsed) => elapsed,
        None => 0,
    }
}

/// Turns a reading of the clock into a point in time.
pub fn timestamp_of(reading: Option<u128>) -> (now: Timestamp)
    ensures
        now == reading_as_timestamp(reading),
{
    match reading {
        Some(elapsed) => elapsed,
        None => 0,
    }
}

/// The state of one node.
pub struct State {
    name: String,
    port: Port,
    peers: HashMap<Port, Timestamp>,
    biggest_prime: u32,
    biggest_prime_sender: Port,
    msg_id: u32,
    awake: bool,
    received_messages: HashSet<u64>,
}

impl View for State {
    type V = StateView;

    closed spec fn view(&self) -> StateView {
        StateView {
            name: self.name@,
            port: self.port,
            peers: self.peers@,
            biggest_prime: self.biggest_prime,
            biggest_prime_sender: self.biggest_prime_sender,
            msg_id: self.msg_id,
            awake: self.awake,
            received_messages: Set::new(
                |m: (Port, u32)| self.received_messages@.contains(message_key(m.0, m.1)),
            ),
        }
    }
}

impl State {
    /// Every key in the ledger of handled messages is the key of a
    /// message.
    pub closed spec fn ledger_wf(&self) -> bool {
        forall|key: u64| #[trigger]
            self.received_messages@.contains(key) ==> key < 0x1_0000_0000_0000
    }

    /// A node is not its own peer, and its ledger of handled messages is
    /// in order.
    pub open spec fn wf(&self) -> bool {
        self@.wf() && self.ledger_wf()
    }

    /// The state of a node `name` that listens on `port` and has just
    /// started: no peers, no messages handled, no message id handed out,
    /// and 2 as the largest exponent, found by the node itself.
    pub fn new(name: String, port: Port) -> (state: State)
        ensures
            state@ == StateView::initial(name@, port),
            state.wf(),
    {
        let state = State {
            name,
            port,
            peers: HashMap::new(),
            biggest_prime: 2,
            biggest_prime_sender: port,
            msg_id: 0,
            awake: true,
            received_messages: HashSet::new(),
        };
        assert(state@.received_messages =~= Set::empty());
        state
    }

    /// Records that `peer` was heard from at `now`: a new peer joins, a
    /// known one has its time replaced. The node's own port is ignored.
    pub fn add_peer_at(&mut self, peer: Port, now: Timestamp)
        requires
            old(self).wf(),
        ensures
            final(self)@ == old(self)@.add_peer(peer, now),
            final(self).wf(),
    {
        broadcast use vstd::std_specs::hash::group_hash_axioms;

        if peer != self.port {
            self.peers.insert(peer, now);
        }
    }

    /// Records that `peer` was heard from just now, by the system clock.
    pub fn add_peer(&mut self, peer: Port)
        requires
            old(self).wf(),
        ensures
            exists|now: Timestamp| final(self)@ == old(self)@.add_peer(peer, now),
            final(self).wf(),
    {
        let now = current_time();
        self.add_peer_at(peer, now);
    }

    /// Records that `peer` was heard from at `now`.
    pub fn update_last_heard_from_at(&mut self, peer: Port, now: Timestamp)
        requires
            old(self).wf(),
        ensures
            final(self)@ == old(self)@.add_peer(peer, now),
            final(self).wf(),
    {
        self.add_peer_at(peer, now);
    }

    /// Records that `peer` was heard from just now, by the system clock.
    pub fn update_last_heard_from(&mut self, peer: Port)
        requires
            old(self).wf(),
        ensures
            exists|now: Timestamp| final(self)@ == old(self)@.add_peer(peer, now),
            final(self).wf(),
    {
        self.add_peer(peer);
    }

    /// Whether a peer last heard from at `last_heard` is stale at `now`:
    /// more than ten seconds have passed.
    pub fn is_stale(last_heard: Timestamp, now: Timestamp) -> (stale: bool)
        ensures
            stale == is_stale_at(last_heard, now),
    {
        now >= last_heard && now - last_heard > STALE_AFTER_NANOS
    }

    /// Drops every peer that is stale at `now`.
    pub fn evict_stale_peers_at(&mut self, now: Timestamp)
        requires
            old(self).wf(),
        ensures
            final(self)@ == old(self)@.evict_stale(now),
            final(self).wf(),
    {
        broadcast use vstd::std_specs::hash::group_hash_axioms;

        let known = self.get_peers();
        let ghost before = self.peers@;
        let mut i: usize = 0;
        while i < known.len()
            invariant
                i <= known.len(),
                known@.to_set() == before.dom(),
                self.peers@.dom().finite(),
                *self == (State { peers: self.peers, ..*old(self) }),
                forall|p: Port| #[trigger]
                    self.peers@.contains_key(p) ==> before.contains_key(p) && self.peers@[p]
                        == before[p],
                forall|p: Port|
                    before.contains_key(p) && !is_stale_at(before[p], now)
                        ==> #[trigger] self.peers@.contains_key(p),
                forall|p: Port|
                    before.contains_key(p) && !(#[trigger] self.peers@.contains_key(p))
                        ==> is_stale_at(before[p], now),
                forall|j: int|
                    0 <= j < i && is_stale_at(before[known@[j]], now)
                        ==> !self.peers@.contains_key(#[trigger] known@[j]),
            decreases known.len() - i,
        {
            let peer = known[i];
            assert(known@.to_set().contains(known@[i as int]));
            let stale = match self.peers.get(&peer) {
                Some(last_heard) => Self::is_stale(*last_heard, now),
                None => false,
            };
            if stale {
                self.peers.remove(&peer);
            }
            i += 1;
        }
        proof {
            assert forall|p: Port| before.contains_key(p) && is_stale_at(before[p], now) implies
                !self.peers@.contains_key(p) by {
                assert(known@.to_set().contains(p));
                let j = choose|j: int| 0 <= j < known@.len() && known@[j] == p;
                assert(known@[j] == p);
            }
            assert(self.peers@ =~= old(self)@.fresh_peers(now));
        }
    }

    /// Drops every peer that is stale now, by the system clock.
    pub fn evict_stale_peers(&mut self)
        requires
            old(self).wf(),
        ensures
            exists|now: Timestamp| final(self)@ == old(self)@.evict_stale(now),
            final(self).wf(),
    {
        let now = current_time();
        self.evict_stale_peers_at(now);
    }

    /// Whether `prime` is larger than the largest exponent known.
    pub fn is_biggest_prime(&self, prime: u32) -> (bigger: bool)
        ensures
            bigger == (self@.biggest_prime < prime),
    {
        self.biggest_prime < prime
    }

    /// Makes `prime`, as announced by `prime_sender`, the largest exponent
    /// known, whatever was known before.
    pub fn capture_bigget_prime(&mut self, prime_sender: Port, prime: u32)
        ensures
            final(self)@ == old(self)@.capture_prime(prime_sender, prime),
            old(self).wf() ==> final(self).wf(),
    {
        self.biggest_prime = prime;
        self.biggest_prime_sender = prime_sender;
    }

    /// The peers, each once, in no particular order.
    pub fn get_peers(&self) -> (peers: Vec<Port>)
        ensures
            peers@.no_duplicates(),
            peers@.to_set() == self@.peers.dom(),
    {
        broadcast use vstd::std_specs::hash::group_hash_axioms;

        let mut peers: Vec<Port> = Vec::new();
        for peer in it: self.peers.keys()
            invariant
                peers@.len() == it.index(),
                forall|j: int| 0 <= j < peers@.len() ==> peers@[j] == *it.seq()[j],
                it.seq() == vstd::std_specs::hash::spec_keys_iter(&self.peers).remaining(),
        {
            peers.push(*peer);
        }
        proof {
            let keys = vstd::std_specs::hash::spec_keys_iter(&self.peers).remaining();
            assert(peers@ =~= keys.unref());
            assert forall|i: int, j: int| 0 <= i < j < peers@.len() implies peers@[i]
                != peers@[j] by {
                assert(keys[i] != keys[j]);
            }
        }
        peers
    }

    /// Hands out the next message id: one more than the last.
    pub fn get_next_msg_id(&mut self) -> (id: u32)
        requires
            old(self)@.msg_id < u32::MAX,
        ensures
            id == old(self)@.msg_id + 1,
            final(self)@ == old(self)@.take_msg_ids(1),
            old(self).wf() ==> final(self).wf(),
    {
        self.msg_id += 1;
        self.msg_id
    }

    /// The port this node listens on, which is its identity.
    pub fn my_port(&self) -> (port: Port)
        ensures
            port == self@.port,
    {
        self.port
    }

    /// Finds the smallest exponent above the largest known that passes
    /// the Lucas-Lehmer test, and makes it the largest known, found by the
    /// node itself.
    pub fn generate_next_mersenne_prime(&mut self) -> (next: u32)
        requires
            old(self)@.biggest_prime < LAST_EXPONENT,
        ensures
            is_next_exponent(old(self)@.biggest_prime as nat, next as nat),
            next == next_passing_exponent(old(self)@.biggest_prime as nat),
            final(self)@ == old(self)@.capture_prime(old(self)@.port, next),
            old(self).wf() ==> final(self).wf(),
    {
        let next_prime = find_next_mersenne_prime(self.biggest_prime);
        self.biggest_prime = next_prime;
        self.biggest_prime_sender = self.port;
        self.biggest_prime
    }

    /// The display name of the node.
    pub fn name(&self) -> (name: &String)
        ensures
            name@ == self@.name,
    {
        &self.name
    }

    /// When `peer` was last heard from, if it is a peer.
    pub fn last_heard_from(&self, peer: Port) -> (heard: Option<Timestamp>)
        ensures
            heard == (if self@.peers.contains_key(peer) {
                Some(self@.peers[peer])
            } else {
                None
            }),
    {
        broadcast use vstd::std_specs::hash::group_hash_axioms;

        match self.peers.get(&peer) {
            Some(heard) => Some(*heard),
            None => None,
        }
    }

    /// The largest exponent known.
    pub fn biggest_prime(&self) -> (prime: u32)
        ensures
            prime == self@.biggest_prime,
    {
        self.biggest_prime
    }

    /// The node that announced the largest exponent known.
    pub fn biggest_prime_sender(&self) -> (sender: Port)
        ensures
            sender == self@.biggest_prime_sender,
    {
        self.biggest_prime_sender
    }

    /// The message id handed out last; 0 before the first.
    pub fn last_msg_id(&self) -> (id: u32)
        ensures
            id == self@.msg_id,
    {
        self.msg_id
    }

    /// Whether the node is awake. A node is awake from its start on.
    pub fn is_awake(&self) -> (awake: bool)
        ensures
            awake == self@.awake,
    {
        self.awake
    }

    /// Whether the message `msg_id` of `msg_originator` was handled
    /// before.
    pub fn has_seen_message(&self, msg_originator: Port, msg_id: u32) -> (seen: bool)
        ensures
            seen == self@.received_messages.contains((msg_originator, msg_id)),
    {
        broadcast use vstd::std_specs::hash::group_hash_axioms;

        let key = compute_message_key(msg_originator, msg_id);
        self.received_messages.contains(&key)
    }

    /// The messages handled so far, each once as its originator and its
    /// id, in no particular order.
    pub fn get_received_messages(&self) -> (messages: Vec<(Port, u32)>)
        requires
            self.wf(),
        ensures
            messages@.no_duplicates(),
            messages@.to_set() == self@.received_messages,
    {
        broadcast use vstd::std_specs::hash::group_hash_axioms;

        let mut messages: Vec<(Port, u32)> = Vec::new();
        let ghost keys = vstd::std_specs::hash::spec_hash_keys_iter(
            &self.received_messages,
        ).remaining();
        proof {
            assert forall|j: int| 0 <= j < keys.len() implies self.received_messages@.contains(
                *#[trigger] keys[j],
            ) by {
                assert(keys.unref()[j] == *keys[j]);
                assert(keys.unref().to_set().contains(*keys[j]));
            }
        }
        for key in it: self.received_messages.iter()
            invariant
                self.ledger_wf(),
                messages@.len() == it.index(),
                it.seq() == keys,
                forall|j: int|
                    0 <= j < keys.len() ==> self.received_messages@.contains(*#[trigger] keys[j]),
                forall|j: int|
                    0 <= j < messages@.len() ==> *keys[j] == message_key(
                        (#[trigger] messages@[j]).0,
                        messages@[j].1,
                    ),
        {
            assert(self.received_messages@.contains(*key));
            let originator = (*key / 0x1_0000_0000) as Port;
            let msg_id = (*key % 0x1_0000_0000) as u32;
            messages.push((originator, msg_id));
        }
        proof {
            assert forall|i: int, j: int| 0 <= i < j < messages@.len() implies messages@[i]
                != messages@[j] by {
                assert(keys[i] != keys[j]);
            }
            assert forall|m: (Port, u32)|
                messages@.to_set().contains(m) <==> self@.received_messages.contains(m) by {
                if messages@.to_set().contains(m) {
                    let j = choose|j: int| 0 <= j < messages@.len() && messages@[j] == m;
                    assert(self.received_messages@.contains(*keys[j]));
                }
                if self@.received_messages.contains(m) {
                    let key = message_key(m.0, m.1);
                    assert(keys.unref().to_set().contains(key));
                    let j = choose|j: int| 0 <= j < keys.len() && keys.unref()[j] == key;
                    assert(messages@[j] == m);
                }
            }
            assert(messages@.to_set() =~= self@.received_messages);
        }
        messages
    }

    /// Notes that the message `msg_id` of `msg_originator` was handled.
    pub fn record_received_message(&mut self, msg_originator: Port, msg_id: u32)
        requires
            old(self).wf(),
        ensures
            final(self)@ == old(self)@.record_received(msg_originator, msg_id),
            final(self).wf(),
    {
        broadcast use vstd::std_specs::hash::group_hash_axioms;

        let key = compute_message_key(msg_originator, msg_id);
        self.received_messages.insert(key);
        assert(self@.received_messages =~= old(self)@.received_messages.insert(
            (msg_originator, msg_id),
        ));
    }
}

} // verus!

//! The messages that nodes exchange.

use vstd::prelude::*;

verus! {

/// The identity of a node: the port it listens on.
pub type Port = u16;

/// A message between two nodes.
#[derive(Clone, Copy, Debug, PartialEq, Eq, Structural)]
pub enum Message {
    /// A flooded announcement of an exponent. `ttl` is the number of hops
    /// the message may still take, `msg_originator` the node that created
    /// it, `msg_forwarder` the node that sent this copy.
    Prime { msg_id: u32, ttl: u32, msg_originator: Port, msg_forwarder: Port, data: u32 },
    /// A heartbeat that asks for a `Pong`.
    Ping { msg_id: u32, msg_originator: Port },
    /// The answer to a `Ping`.
    Pong { msg_id: u32, msg_originator: Port },
}

} // verus!

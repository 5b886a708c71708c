//! The core of a gossip node: the search for Mersenne prime exponents, the
//! messages that nodes exchange, the state of one node, and the reactions of
//! that node to timer ticks and to inbound messages.

pub mod exponent_table;
pub mod mersenne_prime;
pub mod message;
pub mod state;
pub mod scheduled_actions;
pub mod wire;
pub mod arguments;

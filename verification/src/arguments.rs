//! What a node is started with: its own port and, optionally, the port of
//! a first peer, both from the arguments of the program, and a name drawn
//! at random from a list.

use crate::message::Port;
use crate::wire::{digits_value, is_digit};
use rand::prelude::SliceRandom;
use vstd::prelude::*;
use vstd::string::StringSliceAdditionalSpecFns;
use vstd::utf8::encode_utf8;

verus! {

/// The smallest port a node may listen on.
pub const MIN_PORT: Port = 1024;

/// Why the arguments were refused.
#[derive(Clone, Copy, Debug, PartialEq, Eq, Structural)]
pub enum ArgumentError {
    /// No port was given.
    MissingPort,
    /// The node's own port is not a number that fits a port.
    InvalidPort,
    /// The peer's port is not a number that fits a port.
    InvalidPeerPort,
    /// A port is below `MIN_PORT`.
    PortBelowMinimum,
}

/// Every character of `text` is a digit.
pub open spec fn all_digits(text: Seq<u8>) -> bool {
    forall|j: int| 0 <= j < text.len() ==> is_digit(#[trigger] text[j])
}

/// `text` without a plus sign at its start.
pub open spec fn unsigned_part(text: Seq<u8>) -> Seq<u8> {
    if text.len() > 0 && text[0] == 43 {
        text.subrange(1, text.len() as int)
    } else {
        text
    }
}

/// The port that `text` stands for: an optional plus sign, then decimal
/// digits, at least one, whose value is at most 65535. Any other text
/// stands for no port.
pub open spec fn port_of(text: Seq<u8>) -> Option<Port> {
    let digits = unsigned_part(text);
    if digits.len() > 0 && all_digits(digits) && digits_value(digits) <= u16::MAX {
        Some(digits_value(digits) as Port)
    } else {
        None
    }
}

/// The outcome of checking that a port is not below `MIN_PORT`.
pub open spec fn checked_port(port: Port) -> Result<Port, ArgumentError> {
    if port < MIN_PORT {
        Err(ArgumentError::PortBelowMinimum)
    } else {
        Ok(port)
    }
}

/// The node's port and its first peer's as the arguments `args` give
/// them, the program's name being the first argument; or the first fault
/// found, the node's own port being looked at before the peer's.
pub open spec fn numbers_of(args: Seq<Seq<u8>>) -> Result<(Port, Option<Port>), ArgumentError> {
    if args.len() < 2 {
        Err(ArgumentError::MissingPort)
    } else if port_of(args[1]) is None {
        Err(ArgumentError::InvalidPort)
    } else if port_of(args[1]).unwrap() < MIN_PORT {
        Err(ArgumentError::PortBelowMinimum)
    } else if args.len() < 3 {
        Ok((port_of(args[1]).unwrap(), None))
    } else if port_of(args[2]) is None {
        Err(ArgumentError::InvalidPeerPort)
    } else if port_of(args[2]).unwrap() < MIN_PORT {
        Err(ArgumentError::PortBelowMinimum)
    } else {
        Ok((port_of(args[1]).unwrap(), Some(port_of(args[2]).unwrap())))
    }
}

/// The arguments `args`, each as its bytes.
pub open spec fn bytes_of(args: Seq<String>) -> Seq<Seq<u8>> {
    args.map_values(|arg: String| encode_utf8(arg@))
}

/// The value of digits does not shrink when more digits follow.
proof fn lemma_digits_value_grows(digits: Seq<u8>, k: int)
    requires
        0 <= k <= digits.len(),
        all_digits(digits),
    ensures
        digits_value(digits.subrange(0, k)) <= digits_value(digits),
    decreases digits.len(),
{
    if k == digits.len() {
        assert(digits.subrange(0, k) =~= digits);
    } else {
        let front = digits.drop_last();
        assert(is_digit(digits[digits.len() - 1]));
        assert(all_digits(front)) by {
            assert forall|j: int| 0 <= j < front.len() implies is_digit(#[trigger] front[j]) by {
                assert(front[j] == digits[j]);
            }
        }
        lemma_digits_value_grows(front, k);
        assert(front.subrange(0, k) =~= digits.subrange(0, k));
    }
}

/// Reads a port from `text`.
pub fn parse_port(text: &str) -> (port: Option<Port>)
    ensures
        port == port_of(text.spec_bytes()),
{
    let bytes = text.as_bytes();
    let total: usize = bytes.len();
    let start: usize = if total > 0 && bytes[0] == 43 {
        1
    } else {
        0
    };
    let ghost digits = unsigned_part(bytes@);
    assert(digits =~= bytes@.subrange(start as int, total as int));
    if start == total {
        return None;
    }
    let mut value: u32 = 0;
    let mut i: usize = start;
    assert(digits.subrange(0, 0) =~= Seq::empty());
    while i < total
        invariant
            start <= i <= total == bytes@.len(),
            digits == bytes@.subrange(start as int, total as int),
            digits == unsigned_part(text.spec_bytes()),
            forall|j: int| 0 <= j < i - start ==> is_digit(#[trigger] digits[j]),
            value == digits_value(digits.subrange(0, i - start)),
            value <= u16::MAX,
        decreases total - i,
    {
        let b = bytes[i];
        assert(digits[i - start] == b);
        if b < 48 || b > 57 {
            assert(!is_digit(digits[i - start]));
            return None;
        }
        proof {
            let longer = digits.subrange(0, i - start + 1);
            assert(longer.drop_last() =~= digits.subrange(0, i - start));
            assert(longer.last() == b);
            assert(digits_value(longer) == value * 10 + (b - 48));
        }
        value = value * 10 + (b - 48) as u32;
        i += 1;
        if value > 0xffff {
            proof {
                if all_digits(digits) {
                    lemma_digits_value_grows(digits, i - start);
                }
            }
            return None;
        }
    }
    assert(digits.subrange(0, i - start) =~= digits);
    Some(value as Port)
}

/// Checks that a node may listen on `port`.
pub fn ensure_valid_port_number(port: Port) -> (checked: Result<Port, ArgumentError>)
    ensures
        checked == checked_port(port),
{
    if port < MIN_PORT {
        Err(ArgumentError::PortBelowMinimum)
    } else {
        Ok(port)
    }
}

/// Reads the node's own port and, where a third argument is there, the
/// port of its first peer from the arguments of the program, and pairs
/// them with the name that the node was given.
pub fn parse_name_and_number(args: Vec<String>, name: String) -> (out: Result<
    (Port, String, Option<Port>),
    ArgumentError,
>)
    ensures
        match out {
            Ok((port, given, peer)) => numbers_of(bytes_of(args@)) == Ok::<
                (Port, Option<Port>),
                ArgumentError,
            >((port, peer)) && given@ == name@,
            Err(fault) => numbers_of(bytes_of(args@)) == Err::<
                (Port, Option<Port>),
                ArgumentError,
            >(fault),
        },
{
    if args.len() < 2 {
        return Err(ArgumentError::MissingPort);
    }
    let port = match parse_port(args[1].as_str()) {
        Some(port) => port,
        None => {
            return Err(ArgumentError::InvalidPort);
        },
    };
    if ensure_valid_port_number(port).is_err() {
        return Err(ArgumentError::PortBelowMinimum);
    }
    let mut peer: Option<Port> = None;
    if args.len() >= 3 {
        let peer_port = match parse_port(args[2].as_str()) {
            Some(peer_port) => peer_port,
            None => {
                return Err(ArgumentError::InvalidPeerPort);
            },
        };
        if ensure_valid_port_number(peer_port).is_err() {
            return Err(ArgumentError::PortBelowMinimum);
        }
        peer = Some(peer_port);
    }
    Ok((port, name, peer))
}

/// `name` is one of `names`.
pub open spec fn is_one_of(names: Seq<String>, name: String) -> bool {
    exists|i: int| 0 <= i < names.len() && (#[trigger] names[i])@ == name@
}

/// `SliceRandom::choose` of `rand` on `names`, with the generator of the
/// thread: for an empty list it gives nothing, for any other an element
/// of the list at an index drawn at random. The contract says no more
/// than that; which element comes is left open.
#[verifier::external_body]
fn draw(names: &Vec<String>) -> (chosen: Option<String>)
    ensures
        chosen is None <==> names@.len() == 0,
        chosen is Some ==> is_one_of(names@, chosen.unwrap()),
{
    names.choose(&mut rand::thread_rng()).cloned()
}

/// Draws the name of the node at random from `names`. There is a name
/// unless the list is empty.
pub fn choose_random_name(names: &Vec<String>) -> (name: Option<String>)
    ensures
        name is None <==> names@.len() == 0,
        name is Some ==> is_one_of(names@, name.unwrap()),
{
    draw(names)
}

} // verus!

//! The wire form of a message: a JSON object with one member, named
//! after the kind of the message, whose value is an object with the
//! fields of the message in their order, each a decimal number, and no
//! white space anywhere.

use crate::message::{Message, Port};
use vstd::prelude::*;

verus! {

/// The kind of a message.
#[derive(Clone, Copy, Debug, PartialEq, Eq, Structural)]
pub enum Kind {
    Prime,
    Ping,
    Pong,
}

/// `b` is one of the characters `0` to `9`.
pub open spec fn is_digit(b: u8) -> bool {
    48 <= b <= 57
}

/// The decimal digits of `n`, without leading zeros.
pub open spec fn decimal(n: nat) -> Seq<u8>
    decreases n,
{
    if n < 10 {
        seq![(48 + n) as u8]
    } else {
        decimal(n / 10).push((48 + n % 10) as u8)
    }
}

/// The number that the decimal digits `digits` stand for.
pub open spec fn digits_value(digits: Seq<u8>) -> nat
    decreases digits.len(),
{
    if digits.len() == 0 {
        0
    } else {
        digits_value(digits.drop_last()) * 10 + (digits.last() - 48) as nat
    }
}

/// Ten to the power `e`.
pub open spec fn pow10(e: nat) -> nat
    decreases e,
{
    if e == 0 {
        1
    } else {
        10 * pow10((e - 1) as nat)
    }
}

/// The number of fields of a message of the kind `kind`.
pub open spec fn field_count(kind: Kind) -> nat {
    match kind {
        Kind::Prime => 5,
        Kind::Ping => 2,
        Kind::Pong => 2,
    }
}

/// The text that stands before the field `i` of a message of the kind
/// `kind`: for the first field the opening of the two objects, the kind
/// and the field's name; for any other a comma and the field's name.
pub open spec fn head(kind: Kind, i: nat) -> Seq<u8> {
    match kind {
        Kind::Prime => {
            if i == 0 {
                // {"Prime":{"msg_id":
                seq![123u8, 34, 80, 114, 105, 109, 101, 34, 58, 123, 34, 109, 115, 103, 95, 105, 100, 34, 58]
            } else if i == 1 {
                // ,"ttl":
                seq![44u8, 34, 116, 116, 108, 34, 58]
            } else if i == 2 {
                // ,"msg_originator":
                seq![44u8, 34, 109, 115, 103, 95, 111, 114, 105, 103, 105, 110, 97, 116, 111, 114, 34, 58]
            } else if i == 3 {
                // ,"msg_forwarder":
                seq![44u8, 34, 109, 115, 103, 95, 102, 111, 114, 119, 97, 114, 100, 101, 114, 34, 58]
            } else {
                // ,"data":
                seq![44u8, 34, 100, 97, 116, 97, 34, 58]
            }
        },
        Kind::Ping => {
            if i == 0 {
                // {"Ping":{"msg_id":
                seq![123u8, 34, 80, 105, 110, 103, 34, 58, 123, 34, 109, 115, 103, 95, 105, 100, 34, 58]
            } else {
                // ,"msg_originator":
                seq![44u8, 34, 109, 115, 103, 95, 111, 114, 105, 103, 105, 110, 97, 116, 111, 114, 34, 58]
            }
        },
        Kind::Pong => {
            if i == 0 {
                // {"Pong":{"msg_id":
                seq![123u8, 34, 80, 111, 110, 103, 34, 58, 123, 34, 109, 115, 103, 95, 105, 100, 34, 58]
            } else {
                // ,"msg_originator":
                seq![44u8, 34, 109, 115, 103, 95, 111, 114, 105, 103, 105, 110, 97, 116, 111, 114, 34, 58]
            }
        },
    }
}

/// The text that closes a message: `}}`.
pub open spec fn tail() -> Seq<u8> {
    seq![125u8, 125]
}

/// The wire form of the fields `values` of a message of the kind `kind`,
/// from the field `i` on.
pub open spec fn record_from(kind: Kind, values: Seq<u64>, i: nat) -> Seq<u8>
    decreases values.len() - i,
{
    if i >= values.len() {
        tail()
    } else {
        head(kind, i) + decimal(values[i as int] as nat) + record_from(kind, values, i + 1)
    }
}

/// The kind of `message`.
pub open spec fn kind_of(message: Message) -> Kind {
    match message {
        Message::Prime { .. } => Kind::Prime,
        Message::Ping { .. } => Kind::Ping,
        Message::Pong { .. } => Kind::Pong,
    }
}

/// The fields of `message`, in their order on the wire.
pub open spec fn fields_of(message: Message) -> Seq<u64> {
    match message {
        Message::Prime { msg_id, ttl, msg_originator, msg_forwarder, data } => seq![
            msg_id as u64,
            ttl as u64,
            msg_originator as u64,
            msg_forwarder as u64,
            data as u64,
        ],
        Message::Ping { msg_id, msg_originator } => seq![msg_id as u64, msg_originator as u64],
        Message::Pong { msg_id, msg_originator } => seq![msg_id as u64, msg_originator as u64],
    }
}

/// The wire form of `message`.
pub open spec fn wire_form(message: Message) -> Seq<u8> {
    record_from(kind_of(message), fields_of(message), 0)
}

/// The message whose wire form `bytes` is, if there is one.
pub open spec fn decoded(bytes: Seq<u8>) -> Option<Message> {
    if exists|message: Message| bytes == #[trigger] wire_form(message) {
        Some(choose|message: Message| bytes == #[trigger] wire_form(message))
    } else {
        None
    }
}

/// The fourth character of a wire form tells the kind: `i`, `o` or `r`.
pub open spec fn kind_mark(kind: Kind) -> u8 {
    match kind {
        Kind::Prime => 114,
        Kind::Ping => 105,
        Kind::Pong => 111,
    }
}

proof fn lemma_pow10_ten()
    ensures
        pow10(10) == 10_000_000_000,
{
    reveal_with_fuel(pow10, 11);
}

proof fn lemma_pow10_monotonic(a: nat, b: nat)
    requires
        a <= b,
    ensures
        pow10(a) <= pow10(b),
        pow10(a) >= 1,
    decreases b,
{
    if a < b {
        lemma_pow10_monotonic(a, (b - 1) as nat);
    } else if a > 0 {
        lemma_pow10_monotonic((a - 1) as nat, (a - 1) as nat);
    }
}

/// The decimal form of a number below `10^k` has at least one and at most
/// `k` characters, all digits, and stands for the number.
proof fn lemma_decimal(n: nat, k: nat)
    requires
        k >= 1,
        n < pow10(k),
    ensures
        1 <= decimal(n).len() <= k,
        forall|j: int| 0 <= j < decimal(n).len() ==> is_digit(#[trigger] decimal(n)[j]),
        digits_value(decimal(n)) == n,
    decreases n,
{
    reveal_with_fuel(pow10, 2);
    reveal_with_fuel(digits_value, 2);
    if n < 10 {
        assert(decimal(n).drop_last() =~= Seq::empty());
    } else {
        assert(k >= 2);
        lemma_decimal(n / 10, (k - 1) as nat);
        assert(decimal(n).drop_last() =~= decimal(n / 10));
    }
}

/// Every head is at least four characters long and starts with a
/// character that is no digit; the fourth character of a first head is
/// the mark of its kind. The tail starts with a character that is no
/// digit.
proof fn lemma_heads(kind: Kind, i: nat)
    ensures
        head(kind, i).len() >= 4,
        !is_digit(head(kind, i)[0]),
        head(kind, 0)[3] == kind_mark(kind),
        tail().len() == 2,
        !is_digit(tail()[0]),
{
}

/// What follows a field on the wire is not empty and starts with a
/// character that is no digit.
proof fn lemma_record_starts(kind: Kind, values: Seq<u64>, i: nat)
    ensures
        record_from(kind, values, i).len() >= 2,
        !is_digit(record_from(kind, values, i)[0]),
        i < values.len() ==> record_from(kind, values, i).len() >= 4,
        i == 0 < values.len() ==> record_from(kind, values, i)[3] == kind_mark(kind),
{
    lemma_heads(kind, i);
    lemma_heads(kind, 0);
}

/// The digits read from `start` to `end`, where reading stopped at the
/// first character that is no digit, are the decimal form of `n` if that
/// form stands at `start` and no digit follows it.
proof fn lemma_number_found(bytes: Seq<u8>, start: int, end: int, n: nat)
    requires
        0 <= start <= end <= bytes.len(),
        forall|j: int| start <= j < end ==> is_digit(#[trigger] bytes[j]),
        end == bytes.len() || !is_digit(bytes[end]) || end - start == 10,
        n < pow10(10),
        start + decimal(n).len() < bytes.len(),
        bytes.subrange(start, start + decimal(n).len()) == decimal(n),
        !is_digit(bytes[start + decimal(n).len()]),
    ensures
        end == start + decimal(n).len(),
        digits_value(bytes.subrange(start, end)) == n,
{
    lemma_decimal(n, 10);
    let k = decimal(n).len() as int;
    let digits = bytes.subrange(start, start + k);
    if end < start + k {
        assert(bytes[end] == digits[end - start]);
        assert(is_digit(decimal(n)[end - start]));
    }
    if end > start + k {
        assert(is_digit(bytes[start + k]));
    }
}

/// The text before the field `i` of a message of the kind `kind`.
fn head_bytes(kind: Kind, i: usize) -> (text: Vec<u8>)
    ensures
        text@ == head(kind, i as nat),
{
    match kind {
        Kind::Prime => {
            if i == 0 {
                // {"Prime":{"msg_id":
                vec![123u8, 34, 80, 114, 105, 109, 101, 34, 58, 123, 34, 109, 115, 103, 95, 105, 100, 34, 58]
            } else if i == 1 {
                // ,"ttl":
                vec![44u8, 34, 116, 116, 108, 34, 58]
            } else if i == 2 {
                // ,"msg_originator":
                vec![44u8, 34, 109, 115, 103, 95, 111, 114, 105, 103, 105, 110, 97, 116, 111, 114, 34, 58]
            } else if i == 3 {
                // ,"msg_forwarder":
                vec![44u8, 34, 109, 115, 103, 95, 102, 111, 114, 119, 97, 114, 100, 101, 114, 34, 58]
            } else {
                // ,"data":
                vec![44u8, 34, 100, 97, 116, 97, 34, 58]
            }
        },
        Kind::Ping => {
            if i == 0 {
                // {"Ping":{"msg_id":
                vec![123u8, 34, 80, 105, 110, 103, 34, 58, 123, 34, 109, 115, 103, 95, 105, 100, 34, 58]
            } else {
                // ,"msg_originator":
                vec![44u8, 34, 109, 115, 103, 95, 111, 114, 105, 103, 105, 110, 97, 116, 111, 114, 34, 58]
            }
        },
        Kind::Pong => {
            if i == 0 {
                // {"Pong":{"msg_id":
                vec![123u8, 34, 80, 111, 110, 103, 34, 58, 123, 34, 109, 115, 103, 95, 105, 100, 34, 58]
            } else {
                // ,"msg_originator":
                vec![44u8, 34, 109, 115, 103, 95, 111, 114, 105, 103, 105, 110, 97, 116, 111, 114, 34, 58]
            }
        },
    }
}

/// Appends the decimal digits of `n` to `out`.
fn push_decimal(out: &mut Vec<u8>, n: u64)
    ensures
        final(out)@ == old(out)@ + decimal(n as nat),
    decreases n,
{
    if n < 10 {
        out.push((48 + n) as u8);
        assert(out@ =~= old(out)@ + decimal(n as nat));
    } else {
        push_decimal(out, n / 10);
        out.push((48 + n % 10) as u8);
        assert(out@ =~= old(out)@ + decimal(n as nat));
    }
}

/// Appends `text` to `out`.
fn push_text(out: &mut Vec<u8>, text: &Vec<u8>)
    ensures
        final(out)@ == old(out)@ + text@,
{
    let mut i: usize = 0;
    while i < text.len()
        invariant
            i <= text.len(),
            out@ == old(out)@ + text@.subrange(0, i as int),
        decreases text.len() - i,
    {
        out.push(text[i]);
        i += 1;
        assert(out@ =~= old(out)@ + text@.subrange(0, i as int));
    }
    assert(text@.subrange(0, i as int) =~= text@);
}

/// The kind of `message` and its fields in their order on the wire.
fn message_fields(message: &Message) -> (out: (Kind, Vec<u64>))
    ensures
        out.0 == kind_of(*message),
        out.1@ == fields_of(*message),
{
    match *message {
        Message::Prime { msg_id, ttl, msg_originator, msg_forwarder, data } => (
            Kind::Prime,
            vec![msg_id as u64, ttl as u64, msg_originator as u64, msg_forwarder as u64, data as u64],
        ),
        Message::Ping { msg_id, msg_originator } => (
            Kind::Ping,
            vec![msg_id as u64, msg_originator as u64],
        ),
        Message::Pong { msg_id, msg_originator } => (
            Kind::Pong,
            vec![msg_id as u64, msg_originator as u64],
        ),
    }
}

/// Writes `message` in its wire form.
pub fn encode(message: &Message) -> (bytes: Vec<u8>)
    ensures
        bytes@ == wire_form(*message),
{
    let (kind, values) = message_fields(message);
    // The record is built from its end: `rest` is what follows the field `i`.
    let mut i: usize = values.len();
    let mut rest: Vec<u8> = vec![125u8, 125];
    while i > 0
        invariant
            i <= values.len(),
            rest@ == record_from(kind, values@, i as nat),
        decreases i,
    {
        i -= 1;
        let mut front: Vec<u8> = head_bytes(kind, i);
        push_decimal(&mut front, values[i]);
        push_text(&mut front, &rest);
        rest = front;
    }
    rest
}

/// Reads digits from `start` on, ten at most, and returns their value and
/// the place where reading stopped.
fn read_number(bytes: &[u8], start: usize) -> (out: (u64, usize))
    requires
        start <= bytes@.len(),
    ensures
        start <= out.1 <= bytes@.len(),
        out.1 - start <= 10,
        forall|j: int| start <= j < out.1 ==> is_digit(#[trigger] bytes@[j]),
        out.1 == bytes@.len() || !is_digit(bytes@[out.1 as int]) || out.1 - start == 10,
        out.0 == digits_value(bytes@.subrange(start as int, out.1 as int)),
{
    let mut value: u64 = 0;
    let mut end: usize = start;
    proof {
        lemma_pow10_ten();
        assert(pow10(0) == 1) by {
            reveal_with_fuel(pow10, 1);
        }
        assert(bytes@.subrange(start as int, start as int) =~= Seq::empty());
    }
    while end < bytes.len() && end - start < 10 && 48 <= bytes[end] && bytes[end] <= 57
        invariant
            start <= end <= bytes@.len(),
            end - start <= 10,
            forall|j: int| start <= j < end ==> is_digit(#[trigger] bytes@[j]),
            value == digits_value(bytes@.subrange(start as int, end as int)),
            value < pow10((end - start) as nat),
            pow10(10) == 10_000_000_000,
        decreases bytes@.len() - end,
    {
        proof {
            lemma_pow10_monotonic((end - start) as nat, 9);
            lemma_pow10_monotonic(9, 10);
            reveal_with_fuel(pow10, 2);
            assert(pow10(10) == 10 * pow10(9));
            assert(bytes@.subrange(start as int, end + 1).drop_last() =~= bytes@.subrange(
                start as int,
                end as int,
            ));
        }
        value = value * 10 + (bytes[end] - 48) as u64;
        end += 1;
    }
    (value, end)
}

/// Whether `text` stands in `bytes` at `start`.
fn has_text_at(bytes: &[u8], start: usize, text: &Vec<u8>) -> (found: bool)
    requires
        start <= bytes@.len(),
    ensures
        found == (start + text@.len() <= bytes@.len() && bytes@.subrange(
            start as int,
            start + text@.len(),
        ) == text@),
{
    if text.len() > bytes.len() - start {
        return false;
    }
    let total: usize = bytes.len();
    let mut i: usize = 0;
    while i < text.len()
        invariant
            i <= text@.len(),
            start + text@.len() <= bytes@.len() == total,
            forall|j: int| 0 <= j < i ==> bytes@[start + j] == text@[j],
        decreases text.len() - i,
    {
        if bytes[start + i] != text[i] {
            assert(bytes@.subrange(start as int, start + text@.len())[i as int] != text@[i as int]);
            return false;
        }
        i += 1;
    }
    assert(bytes@.subrange(start as int, start + text@.len()) =~= text@);
    true
}

/// The fields `values` are small enough for a message: each below 2^32.
pub open spec fn fits_fields(values: Seq<u64>) -> bool {
    forall|j: int| 0 <= j < values.len() ==> #[trigger] values[j] <= u32::MAX
}

/// `bytes` is the wire form of the fields `values` of a message of the
/// kind `kind`.
pub open spec fn is_record(bytes: Seq<u8>, kind: Kind, values: Seq<u64>) -> bool {
    &&& values.len() == field_count(kind)
    &&& fits_fields(values)
    &&& bytes == record_from(kind, values, 0)
}

/// Where the wire form from the field `i` on stands at `at`, the head of
/// that field stands at `at`.
proof fn lemma_head_found(bytes: Seq<u8>, kind: Kind, values: Seq<u64>, i: nat, at: int)
    requires
        i < values.len(),
        0 <= at <= bytes.len(),
        bytes.subrange(at, bytes.len() as int) == record_from(kind, values, i),
    ensures
        at + head(kind, i).len() <= bytes.len(),
        bytes.subrange(at, at + head(kind, i).len()) == head(kind, i),
{
    let text = head(kind, i);
    let whole = record_from(kind, values, i);
    let rest = bytes.subrange(at, bytes.len() as int);
    assert(whole == text + decimal(values[i as int] as nat) + record_from(kind, values, i + 1));
    assert(whole.subrange(0, text.len() as int) =~= text);
    assert(bytes.subrange(at, at + text.len()) =~= rest.subrange(0, text.len() as int));
}

/// Where the wire form from the field `i` on stands at `at`, the digits
/// of that field stand behind its head, a character that is no digit
/// follows them, and from there on stands the wire form from the next
/// field on.
proof fn lemma_field_layout(bytes: Seq<u8>, kind: Kind, values: Seq<u64>, i: nat, at: int)
    requires
        i < values.len(),
        fits_fields(values),
        0 <= at <= bytes.len(),
        bytes.subrange(at, bytes.len() as int) == record_from(kind, values, i),
    ensures
        ({
            let from = at + head(kind, i).len();
            let digits = decimal(values[i as int] as nat);
            let end = from + digits.len();
            &&& 1 <= digits.len() <= 10
            &&& end < bytes.len()
            &&& bytes.subrange(from, end) == digits
            &&& forall|j: int| from <= j < end ==> is_digit(#[trigger] bytes[j])
            &&& !is_digit(bytes[end])
            &&& digits_value(digits) == values[i as int]
            &&& bytes.subrange(end, bytes.len() as int) == record_from(kind, values, i + 1)
        }),
{
    let text = head(kind, i);
    let from = at + text.len();
    let n = values[i as int] as nat;
    let after = record_from(kind, values, i + 1);
    let whole = record_from(kind, values, i);
    let rest = bytes.subrange(at, bytes.len() as int);
    assert(whole == text + decimal(n) + after);
    lemma_record_starts(kind, values, i + 1);
    lemma_pow10_ten();
    lemma_decimal(n, 10);
    let k = decimal(n).len() as int;
    assert(whole.len() == text.len() + k + after.len());
    assert forall|j: int| 0 <= j < k implies bytes[from + j] == decimal(n)[j] by {
        assert(bytes[from + j] == rest[text.len() + j]);
        assert(whole[text.len() + j] == decimal(n)[j]);
    }
    assert(bytes.subrange(from, from + k) =~= decimal(n));
    assert forall|j: int| from <= j < from + k implies is_digit(#[trigger] bytes[j]) by {
        assert(bytes[j] == decimal(n)[j - from]);
    }
    assert(bytes[from + k] == after[0]) by {
        assert(bytes[from + k] == rest[text.len() + k]);
        assert(whole[text.len() + k] == after[0]);
    }
    assert(bytes.subrange(from + k, bytes.len() as int) =~= after) by {
        assert forall|j: int| 0 <= j < after.len() implies bytes[from + k + j] == after[j] by {
            assert(bytes[from + k + j] == rest[text.len() + k + j]);
            assert(whole[text.len() + k + j] == after[j]);
        }
    }
}

/// Where the wire form from the field `i` on stands at `at`, reading
/// digits behind the head of that field gives the field and stops where
/// the wire form from the next field on stands.
proof fn lemma_field_found(
    bytes: Seq<u8>,
    kind: Kind,
    values: Seq<u64>,
    i: nat,
    at: int,
    value: u64,
    end: int,
)
    requires
        i < values.len(),
        fits_fields(values),
        0 <= at <= bytes.len(),
        bytes.subrange(at, bytes.len() as int) == record_from(kind, values, i),
        at + head(kind, i).len() <= end <= bytes.len(),
        forall|j: int| at + head(kind, i).len() <= j < end ==> is_digit(#[trigger] bytes[j]),
        end == bytes.len() || !is_digit(bytes[end]) || end - (at + head(kind, i).len()) == 10,
        value == digits_value(bytes.subrange(at + head(kind, i).len(), end)),
    ensures
        end == at + head(kind, i).len() + decimal(values[i as int] as nat).len(),
        end > at + head(kind, i).len(),
        value == values[i as int],
        bytes.subrange(end, bytes.len() as int) == record_from(kind, values, i + 1),
{
    lemma_field_layout(bytes, kind, values, i, at);
    lemma_pow10_ten();
    lemma_number_found(bytes, at + head(kind, i).len(), end, values[i as int] as nat);
}

/// Two lists of fields whose wire forms from the field `i` on are the
/// same agree from that field on.
proof fn lemma_fields_agree(
    bytes: Seq<u8>,
    kind: Kind,
    a: Seq<u64>,
    b: Seq<u64>,
    i: nat,
    at: int,
)
    requires
        a.len() == b.len(),
        fits_fields(a),
        fits_fields(b),
        i <= a.len(),
        0 <= at <= bytes.len(),
        bytes.subrange(at, bytes.len() as int) == record_from(kind, a, i),
        bytes.subrange(at, bytes.len() as int) == record_from(kind, b, i),
    ensures
        forall|j: int| i <= j < a.len() ==> a[j] == b[j],
    decreases a.len() - i,
{
    if i < a.len() {
        lemma_field_layout(bytes, kind, a, i, at);
        let end = at + head(kind, i).len() + decimal(a[i as int] as nat).len();
        lemma_field_found(bytes, kind, b, i, at, a[i as int], end);
        lemma_fields_agree(bytes, kind, a, b, i + 1, end);
    }
}

/// Two messages with the same wire form are the same message.
pub proof fn lemma_wire_form_is_unique(a: Message, b: Message)
    requires
        wire_form(a) == wire_form(b),
    ensures
        a == b,
{
    let bytes = wire_form(a);
    lemma_record_starts(kind_of(a), fields_of(a), 0);
    lemma_record_starts(kind_of(b), fields_of(b), 0);
    assert(kind_of(a) == kind_of(b));
    assert(bytes.subrange(0, bytes.len() as int) =~= bytes);
    lemma_fields_agree(bytes, kind_of(a), fields_of(a), fields_of(b), 0, 0);
    assert(fields_of(a)[0] == fields_of(b)[0]);
    assert(fields_of(a)[1] == fields_of(b)[1]);
    if kind_of(a) == Kind::Prime {
        assert(fields_of(a)[2] == fields_of(b)[2]);
        assert(fields_of(a)[3] == fields_of(b)[3]);
        assert(fields_of(a)[4] == fields_of(b)[4]);
    }
}

/// Writing a message in its wire form and reading it again gives the
/// message back, equal in its kind and in every field.
pub proof fn lemma_decoding_inverts_encoding(message: Message)
    ensures
        decoded(wire_form(message)) == Some(message),
{
    let found = choose|found: Message| wire_form(message) == #[trigger] wire_form(found);
    lemma_wire_form_is_unique(message, found);
}

/// Reads the fields of a message of the kind `kind` from its wire form.
/// Returns the fields of every wire form of that kind; on other input it
/// may return anything.
fn read_record(bytes: &[u8], kind: Kind) -> (out: Option<Vec<u64>>)
    ensures
        forall|values: Seq<u64>| #[trigger]
            is_record(bytes@, kind, values) ==> out.is_some() && out.unwrap()@ == values,
{
    let count: usize = match kind {
        Kind::Prime => 5,
        Kind::Ping => 2,
        Kind::Pong => 2,
    };
    let total: usize = bytes.len();
    let mut found: Vec<u64> = Vec::new();
    let mut at: usize = 0;
    let mut i: usize = 0;
    proof {
        assert(bytes@.subrange(0, total as int) =~= bytes@);
        assert forall|values: Seq<u64>| #[trigger]
            is_record(bytes@, kind, values) implies found@ == values.subrange(0, 0) by {
            assert(found@ =~= values.subrange(0, 0));
        }
    }
    while i < count
        invariant
            i <= count == field_count(kind),
            at <= total == bytes@.len(),
            found@.len() == i,
            forall|values: Seq<u64>| #[trigger]
                is_record(bytes@, kind, values) ==> {
                    &&& bytes@.subrange(at as int, total as int) == record_from(
                        kind,
                        values,
                        i as nat,
                    )
                    &&& found@ == values.subrange(0, i as int)
                },
        decreases count - i,
    {
        let text = head_bytes(kind, i);
        if !has_text_at(bytes, at, &text) {
            proof {
                assert forall|values: Seq<u64>| #[trigger]
                    is_record(bytes@, kind, values) implies false by {
                    lemma_head_found(bytes@, kind, values, i as nat, at as int);
                }
            }
            return None;
        }
        let from: usize = at + text.len();
        let (value, end) = read_number(bytes, from);
        proof {
            assert forall|values: Seq<u64>| #[trigger]
                is_record(bytes@, kind, values) implies {
                &&& end > from
                &&& value == values[i as int]
                &&& bytes@.subrange(end as int, total as int) == record_from(
                    kind,
                    values,
                    (i + 1) as nat,
                )
            } by {
                lemma_field_found(bytes@, kind, values, i as nat, at as int, value, end as int);
            }
        }
        if end == from || value > 0xffff_ffff {
            return None;
        }
        let ghost before = found@;
        found.push(value);
        proof {
            assert forall|values: Seq<u64>| #[trigger]
                is_record(bytes@, kind, values) implies found@ == values.subrange(0, i + 1) by {
                assert(before == values.subrange(0, i as int));
                assert(value == values[i as int]);
                assert(found@ =~= values.subrange(0, i + 1));
            }
        }
        at = end;
        i += 1;
    }
    proof {
        assert forall|values: Seq<u64>| #[trigger]
            is_record(bytes@, kind, values) implies found@ == values by {
            assert(values.subrange(0, i as int) =~= values);
        }
    }
    Some(found)
}

/// The message of the kind `kind` with the fields `values`, if there is
/// one: each id, hop budget and exponent below 2^32, each port below
/// 2^16.
fn build_message(kind: Kind, values: &Vec<u64>) -> (out: Option<Message>)
    ensures
        forall|message: Message|
            kind_of(message) == kind && #[trigger] fields_of(message) == values@ ==> out == Some(
                message,
            ),
{
    match kind {
        Kind::Prime => {
            if values.len() != 5 || values[0] > 0xffff_ffff || values[1] > 0xffff_ffff
                || values[2] > 0xffff || values[3] > 0xffff || values[4] > 0xffff_ffff {
                proof {
                    assert forall|message: Message|
                        kind_of(message) == kind && #[trigger] fields_of(message)
                            == values@ implies false by {
                        assert(fields_of(message)[0] <= 0xffff_ffff);
                        assert(fields_of(message)[1] <= 0xffff_ffff);
                        assert(fields_of(message)[2] <= 0xffff);
                        assert(fields_of(message)[3] <= 0xffff);
                        assert(fields_of(message)[4] <= 0xffff_ffff);
                    }
                }
                return None;
            }
            let built = Message::Prime {
                msg_id: values[0] as u32,
                ttl: values[1] as u32,
                msg_originator: values[2] as Port,
                msg_forwarder: values[3] as Port,
                data: values[4] as u32,
            };
            proof {
                assert forall|message: Message|
                    kind_of(message) == kind && #[trigger] fields_of(message)
                        == values@ implies message == built by {
                    assert(fields_of(message)[0] == values@[0]);
                    assert(fields_of(message)[1] == values@[1]);
                    assert(fields_of(message)[2] == values@[2]);
                    assert(fields_of(message)[3] == values@[3]);
                    assert(fields_of(message)[4] == values@[4]);
                }
            }
            Some(built)
        },
        Kind::Ping | Kind::Pong => {
            if values.len() != 2 || values[0] > 0xffff_ffff || values[1] > 0xffff {
                proof {
                    assert forall|message: Message|
                        kind_of(message) == kind && #[trigger] fields_of(message)
                            == values@ implies false by {
                        assert(fields_of(message)[0] <= 0xffff_ffff);
                        assert(fields_of(message)[1] <= 0xffff);
                    }
                }
                return None;
            }
            let msg_id = values[0] as u32;
            let msg_originator = values[1] as Port;
            let built = match kind {
                Kind::Ping => Message::Ping { msg_id, msg_originator },
                _ => Message::Pong { msg_id, msg_originator },
            };
            proof {
                assert forall|message: Message|
                    kind_of(message) == kind && #[trigger] fields_of(message)
                        == values@ implies message == built by {
                    assert(fields_of(message)[0] == values@[0]);
                    assert(fields_of(message)[1] == values@[1]);
                }
            }
            Some(built)
        },
    }
}

/// Whether `a` and `b` hold the same bytes.
fn same_bytes(a: &[u8], b: &[u8]) -> (same: bool)
    ensures
        same == (a@ == b@),
{
    if a.len() != b.len() {
        return false;
    }
    let mut i: usize = 0;
    while i < a.len()
        invariant
            i <= a@.len() == b@.len(),
            forall|j: int| 0 <= j < i ==> a@[j] == b@[j],
        decreases a.len() - i,
    {
        if a[i] != b[i] {
            return false;
        }
        i += 1;
    }
    assert(a@ =~= b@);
    true
}

/// Reads a message from its wire form. The wire form of a message gives
/// that message back; bytes that are the wire form of no message give
/// `None`.
pub fn decode(bytes: &[u8]) -> (out: Option<Message>)
    ensures
        out == decoded(bytes@),
        forall|message: Message| bytes@ == #[trigger] wire_form(message) ==> out == Some(message),
        out.is_some() ==> bytes@ == wire_form(out.unwrap()),
{
    proof {
        assert forall|message: Message| bytes@ == #[trigger] wire_form(message) implies decoded(
            bytes@,
        ) == Some(message) by {
            lemma_decoding_inverts_encoding(message);
        }
        assert forall|message: Message| bytes@ == #[trigger] wire_form(message) implies bytes@.len()
            >= 4 && bytes@[3] == kind_mark(kind_of(message)) && is_record(
            bytes@,
            kind_of(message),
            fields_of(message),
        ) by {
            lemma_record_starts(kind_of(message), fields_of(message), 0);
        }
    }
    if bytes.len() < 4 {
        return None;
    }
    let kind = if bytes[3] == 105 {
        Kind::Ping
    } else if bytes[3] == 111 {
        Kind::Pong
    } else if bytes[3] == 114 {
        Kind::Prime
    } else {
        return None;
    };
    let values = match read_record(bytes, kind) {
        Some(values) => values,
        None => {
            return None;
        },
    };
    let message = match build_message(kind, &values) {
        Some(message) => message,
        None => {
            return None;
        },
    };
    let again = encode(&message);
    if same_bytes(again.as_slice(), bytes) {
        Some(message)
    } else {
        None
    }
}

} // verus!

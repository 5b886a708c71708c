use gossip_node::message::Message;
use gossip_node::wire::{decode, encode};

fn text(message: &Message) -> String {
    String::from_utf8(encode(message)).unwrap()
}

fn samples() -> Vec<Message> {
    vec![
        Message::Ping { msg_id: 1, msg_originator: 5000 },
        Message::Ping { msg_id: 0, msg_originator: 0 },
        Message::Ping { msg_id: u32::MAX, msg_originator: u16::MAX },
        Message::Pong { msg_id: 7, msg_originator: 1024 },
        Message::Pong { msg_id: 10, msg_originator: 100 },
        Message::Pong { msg_id: 4_000_000_000, msg_originator: 65_535 },
        Message::Prime { msg_id: 3, ttl: 2, msg_originator: 5000, msg_forwarder: 5001, data: 13 },
        Message::Prime { msg_id: 0, ttl: 0, msg_originator: 0, msg_forwarder: 0, data: 0 },
        Message::Prime {
            msg_id: u32::MAX,
            ttl: u32::MAX,
            msg_originator: u16::MAX,
            msg_forwarder: u16::MAX,
            data: u32::MAX,
        },
        Message::Prime { msg_id: 909, ttl: 1, msg_originator: 9999, msg_forwarder: 10_000, data: 61 },
    ]
}

#[test]
fn ping_is_written_as_json() {
    let ping = Message::Ping { msg_id: 1, msg_originator: 5000 };
    assert_eq!(text(&ping), r#"{"Ping":{"msg_id":1,"msg_originator":5000}}"#);
}

#[test]
fn pong_is_written_as_json() {
    let pong = Message::Pong { msg_id: 42, msg_originator: 1024 };
    assert_eq!(text(&pong), r#"{"Pong":{"msg_id":42,"msg_originator":1024}}"#);
}

#[test]
fn prime_is_written_as_json() {
    let prime =
        Message::Prime { msg_id: 3, ttl: 2, msg_originator: 5000, msg_forwarder: 5001, data: 13 };
    assert_eq!(
        text(&prime),
        r#"{"Prime":{"msg_id":3,"ttl":2,"msg_originator":5000,"msg_forwarder":5001,"data":13}}"#
    );
}

#[test]
fn largest_values_are_written_in_full() {
    let ping = Message::Ping { msg_id: u32::MAX, msg_originator: u16::MAX };
    assert_eq!(text(&ping), r#"{"Ping":{"msg_id":4294967295,"msg_originator":65535}}"#);
    let zero = Message::Pong { msg_id: 0, msg_originator: 0 };
    assert_eq!(text(&zero), r#"{"Pong":{"msg_id":0,"msg_originator":0}}"#);
}

#[test]
fn decoding_the_wire_form_gives_the_message_back() {
    for message in samples() {
        assert_eq!(decode(&encode(&message)), Some(message));
    }
}

#[test]
fn wire_form_is_json_with_the_fields_by_name() {
    for message in samples() {
        let value: serde_json::Value = serde_json::from_slice(&encode(&message)).unwrap();
        let object = value.as_object().unwrap();
        assert_eq!(object.len(), 1);
        let field = |kind: &str, name: &str| value[kind][name].as_u64().unwrap();
        match message {
            Message::Ping { msg_id, msg_originator } => {
                assert_eq!(value["Ping"].as_object().unwrap().len(), 2);
                assert_eq!(field("Ping", "msg_id"), u64::from(msg_id));
                assert_eq!(field("Ping", "msg_originator"), u64::from(msg_originator));
            }
            Message::Pong { msg_id, msg_originator } => {
                assert_eq!(value["Pong"].as_object().unwrap().len(), 2);
                assert_eq!(field("Pong", "msg_id"), u64::from(msg_id));
                assert_eq!(field("Pong", "msg_originator"), u64::from(msg_originator));
            }
            Message::Prime { msg_id, ttl, msg_originator, msg_forwarder, data } => {
                assert_eq!(value["Prime"].as_object().unwrap().len(), 5);
                assert_eq!(field("Prime", "msg_id"), u64::from(msg_id));
                assert_eq!(field("Prime", "ttl"), u64::from(ttl));
                assert_eq!(field("Prime", "msg_originator"), u64::from(msg_originator));
                assert_eq!(field("Prime", "msg_forwarder"), u64::from(msg_forwarder));
                assert_eq!(field("Prime", "data"), u64::from(data));
            }
        }
    }
}

#[test]
fn decode_reads_each_kind() {
    assert_eq!(
        decode(br#"{"Ping":{"msg_id":12,"msg_originator":5000}}"#),
        Some(Message::Ping { msg_id: 12, msg_originator: 5000 })
    );
    assert_eq!(
        decode(br#"{"Pong":{"msg_id":12,"msg_originator":5000}}"#),
        Some(Message::Pong { msg_id: 12, msg_originator: 5000 })
    );
    assert_eq!(
        decode(br#"{"Prime":{"msg_id":1,"ttl":2,"msg_originator":3,"msg_forwarder":4,"data":5}}"#),
        Some(Message::Prime { msg_id: 1, ttl: 2, msg_originator: 3, msg_forwarder: 4, data: 5 })
    );
}

#[test]
fn decode_refuses_what_is_no_wire_form() {
    let refused: [&[u8]; 16] = [
        b"",
        b"{}",
        b"{\"P",
        b"nonsense",
        br#"{"Ping":{"msg_id":1,"msg_originator":5000}"#,
        br#"{"Ping":{"msg_id":1,"msg_originator":5000}}}"#,
        br#"{"Ping":{"msg_id":,"msg_originator":5000}}"#,
        br#"{"Ping":{"msg_id":-1,"msg_originator":5000}}"#,
        br#"{"Ping":{"msg_id":01,"msg_originator":5000}}"#,
        br#"{"Ping":{"msg_id":4294967296,"msg_originator":5000}}"#,
        br#"{"Ping":{"msg_id":1,"msg_originator":65536}}"#,
        br#"{"Ping":{"msg_id":99999999999999999999,"msg_originator":1}}"#,
        br#"{"Ping": {"msg_id":1,"msg_originator":5000}}"#,
        br#"{"Ping":{"msg_originator":5000,"msg_id":1}}"#,
        br#"{"Pung":{"msg_id":1,"msg_originator":5000}}"#,
        br#"{"Prime":{"msg_id":1,"msg_originator":5000}}"#,
    ];
    for bytes in refused {
        assert_eq!(decode(bytes), None, "{}", String::from_utf8_lossy(bytes));
    }
}

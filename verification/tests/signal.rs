use bytes::Bytes;
use wsproxy::signal::{bytes_to_u64, u64_to_bytes, Message, Signal};

fn payload(b: &Bytes) -> Vec<u8> {
    b.as_ref().to_vec()
}

#[test]
fn u64_to_bytes_is_big_endian() {
    let b = u64_to_bytes(0x0102_0304_0506_0708);
    assert_eq!(payload(&b), vec![1, 2, 3, 4, 5, 6, 7, 8]);
    assert_eq!(payload(&u64_to_bytes(0)), vec![0; 8]);
    assert_eq!(payload(&u64_to_bytes(u64::MAX)), vec![0xff; 8]);
}

#[test]
fn bytes_to_u64_reads_big_endian() {
    assert_eq!(bytes_to_u64(Bytes::from(vec![0, 0, 0, 0, 0, 0, 1, 0])), 256);
    assert_eq!(bytes_to_u64(Bytes::from(vec![0x12, 0x34, 0x56, 0x78, 0x9a, 0xbc, 0xde, 0xf0])), 0x1234_5678_9abc_def0);
}

#[test]
fn timestamp_roundtrip() {
    for t in [0u64, 1, 255, 256, 1_700_000_000_000, u64::MAX] {
        assert_eq!(bytes_to_u64(u64_to_bytes(t)), t);
    }
}

#[test]
fn payload_roundtrip() {
    let raw = vec![9, 8, 7, 6, 5, 4, 3, 2];
    let back = u64_to_bytes(bytes_to_u64(Bytes::from(raw.clone())));
    assert_eq!(payload(&back), raw);
}

#[test]
fn signal_data_holds_bytes() {
    match Signal::data(vec![1, 2, 3]) {
        Signal::Data(b) => assert_eq!(payload(&b), vec![1, 2, 3]),
        other => panic!("unexpected {:?}", other),
    }
}

#[test]
fn signal_clone_keeps_payload() {
    let s = Signal::data(vec![4, 5]);
    match s.clone() {
        Signal::Data(b) => assert_eq!(payload(&b), vec![4, 5]),
        other => panic!("unexpected {:?}", other),
    }
}

#[test]
fn message_of_each_signal() {
    match Message::from_signal(Signal::data(vec![7, 7])) {
        Message::Binary(b) => assert_eq!(payload(&b), vec![7, 7]),
        other => panic!("unexpected {:?}", other),
    }
    match Message::from_signal(Signal::Ping(258)) {
        Message::Ping(b) => assert_eq!(payload(&b), vec![0, 0, 0, 0, 0, 0, 1, 2]),
        other => panic!("unexpected {:?}", other),
    }
    match Message::from_signal(Signal::Pong(1)) {
        Message::Pong(b) => assert_eq!(payload(&b), vec![0, 0, 0, 0, 0, 0, 0, 1]),
        other => panic!("unexpected {:?}", other),
    }
    match Message::from_signal(Signal::Unknown) {
        Message::Text(t) => assert_eq!(t, "Unknown signal"),
        other => panic!("unexpected {:?}", other),
    }
}

#[test]
fn signal_of_each_message() {
    match Signal::from_message(Message::Binary(Bytes::from(vec![3]))) {
        Signal::Data(b) => assert_eq!(payload(&b), vec![3]),
        other => panic!("unexpected {:?}", other),
    }
    assert!(matches!(Signal::from_message(Message::Ping(Bytes::from(vec![0, 0, 0, 0, 0, 0, 0, 42]))), Signal::Ping(42)));
    assert!(matches!(Signal::from_message(Message::Pong(Bytes::from(vec![0, 0, 0, 0, 0, 0, 1, 0]))), Signal::Pong(256)));
    assert!(matches!(Signal::from_message(Message::Text("hi".to_string())), Signal::Unknown));
    assert!(matches!(Signal::from_message(Message::Close), Signal::Unknown));
    assert!(matches!(Signal::from_message(Message::Frame), Signal::Unknown));
}

#[test]
fn signal_roundtrip() {
    assert!(matches!(Signal::from_message(Message::from_signal(Signal::Ping(99))), Signal::Ping(99)));
    assert!(matches!(Signal::from_message(Message::from_signal(Signal::Pong(u64::MAX))), Signal::Pong(u64::MAX)));
    assert!(matches!(Signal::from_message(Message::from_signal(Signal::Unknown)), Signal::Unknown));
    match Signal::from_message(Message::from_signal(Signal::data(vec![1, 2]))) {
        Signal::Data(b) => assert_eq!(payload(&b), vec![1, 2]),
        other => panic!("unexpected {:?}", other),
    }
}

#[test]
fn message_roundtrip() {
    let ping = vec![1, 1, 2, 3, 5, 8, 13, 21];
    match Message::from_signal(Signal::from_message(Message::Ping(Bytes::from(ping.clone())))) {
        Message::Ping(b) => assert_eq!(payload(&b), ping),
        other => panic!("unexpected {:?}", other),
    }
    match Message::from_signal(Signal::from_message(Message::Binary(Bytes::from(vec![5])))) {
        Message::Binary(b) => assert_eq!(payload(&b), vec![5]),
        other => panic!("unexpected {:?}", other),
    }
}

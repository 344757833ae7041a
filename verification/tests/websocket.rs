use bytes::Bytes;
use wsproxy::config::Config;
use wsproxy::error::ServerError;
use wsproxy::net::SocketAddr;
use wsproxy::signal::{Message, Signal};
use wsproxy::websocket::{
    listen_guard, on_client_event, on_upstream_event, settle_task, ClientAction, ClientEvent, TaskEvent,
    UpstreamAction, UpstreamEvent,
};

fn payload(b: &Bytes) -> Vec<u8> {
    b.as_ref().to_vec()
}

fn config() -> Config {
    Config {
        udp_rcsss_url: SocketAddr::V4 { ip: 0x7f00_0001, port: 8000 },
        udp_proxy_url: SocketAddr::V4 { ip: 0x7f00_0001, port: 0 },
        ws_url: SocketAddr::V4 { ip: 0x7f00_0001, port: 8002 },
    }
}

#[test]
fn listen_when_idle() {
    assert!(listen_guard(false, &config()).is_ok());
}

#[test]
fn listen_twice_refused() {
    match listen_guard(true, &config()) {
        Err(ServerError::AlreadyStarted(c)) => {
            assert_eq!(c.ws_url, config().ws_url);
            assert_eq!(c.udp_rcsss_url, config().udp_rcsss_url);
            assert_eq!(c.udp_proxy_url, config().udp_proxy_url);
        },
        other => panic!("unexpected {:?}", other),
    }
}

#[test]
fn ping_is_echoed() {
    let ping = vec![0, 0, 1, 146, 180, 18, 52, 86];
    match on_client_event(ClientEvent::Received(Message::Ping(Bytes::from(ping.clone())))) {
        ClientAction::Reply(sig) => {
            assert!(matches!(sig, Signal::Pong(0x0000_0192_b412_3456)));
            match Message::from_signal(sig) {
                Message::Pong(b) => assert_eq!(payload(&b), ping),
                other => panic!("unexpected {:?}", other),
            }
        },
        other => panic!("unexpected {:?}", other),
    }
}

#[test]
fn pong_is_ignored() {
    let a = on_client_event(ClientEvent::Received(Message::Pong(Bytes::from(vec![0; 8]))));
    assert!(matches!(a, ClientAction::Skip));
}

#[test]
fn client_data_is_forwarded() {
    match on_client_event(ClientEvent::Received(Message::Binary(Bytes::from(vec![1, 2, 3])))) {
        ClientAction::Forward(b) => assert_eq!(payload(&b), vec![1, 2, 3]),
        other => panic!("unexpected {:?}", other),
    }
}

#[test]
fn other_messages_are_unknown() {
    for m in [Message::Text("hello".to_string()), Message::Close, Message::Frame] {
        match on_client_event(ClientEvent::Received(m)) {
            ClientAction::Reply(sig) => {
                assert!(matches!(sig, Signal::Unknown));
                match Message::from_signal(sig) {
                    Message::Text(t) => assert_eq!(t, "Unknown signal"),
                    other => panic!("unexpected {:?}", other),
                }
            },
            other => panic!("unexpected {:?}", other),
        }
    }
}

#[test]
fn client_stream_end_and_failure() {
    assert!(matches!(on_client_event(ClientEvent::Closed), ClientAction::Finish(Ok(()))));
    match on_client_event(ClientEvent::Failed(ServerError::Udp("x".to_string()))) {
        ClientAction::Finish(Err(ServerError::Udp(m))) => assert_eq!(m, "x"),
        other => panic!("unexpected {:?}", other),
    }
}

#[test]
fn upstream_data_is_delivered() {
    match on_upstream_event(UpstreamEvent::Datagram(vec![9, 9, 9])) {
        UpstreamAction::Deliver(sig) => match Message::from_signal(sig) {
            Message::Binary(b) => assert_eq!(payload(&b), vec![9, 9, 9]),
            other => panic!("unexpected {:?}", other),
        },
        other => panic!("unexpected {:?}", other),
    }
}

#[test]
fn empty_datagram_stops_upstream() {
    assert!(matches!(on_upstream_event(UpstreamEvent::Datagram(vec![])), UpstreamAction::Finish(Ok(()))));
}

#[test]
fn upstream_failure_stops_upstream() {
    let e = ServerError::Io(std::io::Error::other("gone"));
    match on_upstream_event(UpstreamEvent::Failed(e)) {
        UpstreamAction::Finish(Err(ServerError::Io(e))) => assert_eq!(e.to_string(), "gone"),
        other => panic!("unexpected {:?}", other),
    }
}

#[test]
fn first_finished_task_cancels_others() {
    let o = settle_task::<u32, String>(TaskEvent::Completed(Ok(5)), 0);
    assert!(o.cancel_peers);
    assert_eq!(o.result, Ok(5));
    let o = settle_task::<u32, String>(TaskEvent::Completed(Err("e".to_string())), 0);
    assert!(o.cancel_peers);
    assert_eq!(o.result, Err("e".to_string()));
}

#[test]
fn cancelled_task_returns_fallback() {
    let o = settle_task::<u32, String>(TaskEvent::Cancelled, 7);
    assert!(!o.cancel_peers);
    assert_eq!(o.result, Ok(7));
}

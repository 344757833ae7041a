use wsproxy::client::{Client, ClientSocket, SocketState};
use wsproxy::error::ServerError;
use wsproxy::net::SocketAddr;

fn udp_socket(rt: &tokio::runtime::Runtime) -> tokio::net::UdpSocket {
    rt.block_on(tokio::net::UdpSocket::bind("127.0.0.1:0")).unwrap()
}

const HOST: SocketAddr = SocketAddr::V4 { ip: 0x7f00_0001, port: 7000 };
const PEER: SocketAddr = SocketAddr::V4 { ip: 0x7f00_0001, port: 7001 };

#[test]
fn new_client_is_disconnected() {
    let c = Client::new(HOST, None);
    assert_eq!(c.alias(), "");
    assert_eq!(c.host(), HOST);
    assert_eq!(c.state(), SocketState::Disconnected);
    assert!(c.check_connect().is_ok());
    let c = Client::new(HOST, Some("relay".to_string()));
    assert_eq!(c.alias(), "relay");
}

#[test]
fn alias_reads_back() {
    let mut c = Client::new(HOST, Some("a".to_string()));
    c.set_alias("b".to_string());
    assert_eq!(c.alias(), "b");
    assert_eq!(c.host(), HOST);
}

#[test]
fn connect_only_once() {
    let rt = tokio::runtime::Runtime::new().unwrap();
    let mut c = Client::new(HOST, None);
    assert!(c.check_connect().is_ok());
    c.attach(ClientSocket::new(PEER, udp_socket(&rt)));
    assert_eq!(c.state(), SocketState::Established);
    match c.check_connect() {
        Err(ServerError::Udp(m)) => assert_eq!(m, "Already connected"),
        other => panic!("unexpected {:?}", other),
    }
}

#[test]
fn client_socket_peer() {
    let rt = tokio::runtime::Runtime::new().unwrap();
    let mut s = ClientSocket::new(PEER, udp_socket(&rt));
    assert_eq!(s.peer(), PEER);
    s.set_peer(HOST);
    assert_eq!(s.peer(), HOST);
    assert!(s.socket().local_addr().is_ok());
}

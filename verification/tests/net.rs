use wsproxy::deserializers::{deserialize_ipaddr, deserialize_ipaddr_opt, host_from_parsed};
use wsproxy::net::{IpAddr, SocketAddr};

#[test]
fn parse_v4_socket_addr() {
    assert_eq!(SocketAddr::parse("127.0.0.1:8000"), Ok(SocketAddr::V4 { ip: 0x7f00_0001, port: 8000 }));
    assert_eq!(SocketAddr::parse("10.1.2.3:0"), Ok(SocketAddr::V4 { ip: 0x0a01_0203, port: 0 }));
}

#[test]
fn parse_v6_socket_addr() {
    assert_eq!(
        SocketAddr::parse("[A4C6:8B7F:F064:323E:FE0C:936B:E3DD:D267]:8002"),
        Ok(SocketAddr::V6 { ip: 0xA4C6_8B7F_F064_323E_FE0C_936B_E3DD_D267, port: 8002, flowinfo: 0, scope_id: 0 })
    );
    assert_eq!(
        SocketAddr::parse("[::1]:80"),
        Ok(SocketAddr::V6 { ip: 1, port: 80, flowinfo: 0, scope_id: 0 })
    );
}

#[test]
fn parse_bad_socket_addr() {
    assert_eq!(SocketAddr::parse("localhost:80"), Err("invalid socket address syntax".to_string()));
    assert!(SocketAddr::parse("127.0.0.1").is_err());
    assert!(SocketAddr::parse("127.0.0.1:70000").is_err());
}

#[test]
fn parse_ip_addr() {
    assert_eq!(IpAddr::parse("127.0.0.1"), Ok(IpAddr::V4(0x7f00_0001)));
    assert_eq!(IpAddr::parse("::1"), Ok(IpAddr::V6(1)));
    assert_eq!(IpAddr::parse("localpost"), Err("invalid IP address syntax".to_string()));
}

#[test]
fn socket_addr_new_and_parts() {
    let a = SocketAddr::new(IpAddr::V4(0x7f00_0001), 8000);
    assert_eq!(a, SocketAddr::V4 { ip: 0x7f00_0001, port: 8000 });
    assert_eq!(a.ip(), IpAddr::V4(0x7f00_0001));
    assert_eq!(a.port(), 8000);
    let b = SocketAddr::new(IpAddr::V6(5), 9);
    assert_eq!(b, SocketAddr::V6 { ip: 5, port: 9, flowinfo: 0, scope_id: 0 });
    assert_eq!(b.ip(), IpAddr::V6(5));
    assert_eq!(b.port(), 9);
    assert_eq!(IpAddr::localhost(), IpAddr::V4(0x7f00_0001));
}

#[test]
fn localhost_host() {
    assert_eq!(deserialize_ipaddr_opt("localhost".to_string()), Ok(Some(IpAddr::V4(0x7f00_0001))));
    assert_eq!(deserialize_ipaddr("localhost".to_string()), Ok(IpAddr::V4(0x7f00_0001)));
}

#[test]
fn address_host() {
    assert_eq!(deserialize_ipaddr_opt("10.0.0.1".to_string()), Ok(Some(IpAddr::V4(0x0a00_0001))));
    assert_eq!(
        deserialize_ipaddr_opt("A4C6:8B7F:F064:323E:FE0C:936B:E3DD:D267".to_string()),
        Ok(Some(IpAddr::V6(0xA4C6_8B7F_F064_323E_FE0C_936B_E3DD_D267)))
    );
    assert_eq!(deserialize_ipaddr("::".to_string()), Ok(IpAddr::V6(0)));
}

#[test]
fn bad_host() {
    assert_eq!(deserialize_ipaddr_opt("localpost".to_string()), Err("invalid IP address syntax".to_string()));
    assert_eq!(deserialize_ipaddr("Localhost".to_string()), Err("invalid IP address syntax".to_string()));
}

#[test]
fn host_from_parse_outcome() {
    assert_eq!(host_from_parsed(Ok(IpAddr::V6(3))), Ok(Some(IpAddr::V6(3))));
    assert_eq!(host_from_parsed(Err("bad".to_string())), Err("bad".to_string()));
}

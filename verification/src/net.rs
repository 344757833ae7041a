//! Models of IP and socket addresses, and their parsing from text.

use vstd::prelude::*;

verus! {

/// An IP address, held as the big-endian number its octets (IPv4) or
/// segments (IPv6) spell: `127.0.0.1` is `V4(0x7f00_0001)`.
#[derive(Clone, Copy, Debug, PartialEq, Eq, Structural)]
pub enum IpAddr {
    V4(u32),
    V6(u128),
}

/// A socket address: an IP address with a port and, for IPv6, the flow
/// information and the scope identifier.
#[derive(Clone, Copy, Debug, PartialEq, Eq, Structural)]
#[allow(inconsistent_fields)]
pub enum SocketAddr {
    V4 { ip: u32, port: u16 },
    V6 { ip: u128, port: u16, flowinfo: u32, scope_id: u32 },
}

/// The loopback address `127.0.0.1`.
pub open spec fn spec_localhost() -> IpAddr {
    IpAddr::V4(0x7f00_0001)
}

impl IpAddr {
    /// The IPv4 loopback address `127.0.0.1`.
    pub fn localhost() -> (r: IpAddr)
        ensures
            r == spec_localhost(),
    {
        IpAddr::V4(0x7f00_0001)
    }
}

impl SocketAddr {
    /// The socket address of `ip` and `port`; an IPv6 one gets flow
    /// information 0 and scope identifier 0.
    pub open spec fn spec_new(ip: IpAddr, port: u16) -> SocketAddr {
        match ip {
            IpAddr::V4(a) => SocketAddr::V4 { ip: a, port },
            IpAddr::V6(a) => SocketAddr::V6 { ip: a, port, flowinfo: 0, scope_id: 0 },
        }
    }

    /// Builds the socket address of `ip` and `port`.
    pub fn new(ip: IpAddr, port: u16) -> (r: SocketAddr)
        ensures
            r == Self::spec_new(ip, port),
    {
        match ip {
            IpAddr::V4(a) => SocketAddr::V4 { ip: a, port },
            IpAddr::V6(a) => SocketAddr::V6 { ip: a, port, flowinfo: 0, scope_id: 0 },
        }
    }

    /// The IP address part.
    pub open spec fn spec_ip(self) -> IpAddr {
        match self {
            SocketAddr::V4 { ip, .. } => IpAddr::V4(ip),
            SocketAddr::V6 { ip, .. } => IpAddr::V6(ip),
        }
    }

    /// The port part.
    pub open spec fn spec_port(self) -> u16 {
        match self {
            SocketAddr::V4 { port, .. } => port,
            SocketAddr::V6 { port, .. } => port,
        }
    }

    /// The IP address part.
    pub fn ip(&self) -> (r: IpAddr)
        ensures
            r == self.spec_ip(),
    {
        match self {
            SocketAddr::V4 { ip, .. } => IpAddr::V4(*ip),
            SocketAddr::V6 { ip, .. } => IpAddr::V6(*ip),
        }
    }

    /// The port part.
    pub fn port(&self) -> (r: u16)
        ensures
            r == self.spec_port(),
    {
        match self {
            SocketAddr::V4 { port, .. } => *port,
            SocketAddr::V6 { port, .. } => *port,
        }
    }
}

/// The address of an IP address and a port keeps that IP address and that
/// port; an IPv6 one has no flow information and scope identifier 0.
pub proof fn law_new_address(h: IpAddr, p: u16)
    ensures
        SocketAddr::spec_new(h, p).spec_ip() == h,
        SocketAddr::spec_new(h, p).spec_port() == p,
        h matches IpAddr::V4(a) ==> SocketAddr::spec_new(h, p) == (SocketAddr::V4 { ip: a, port: p }),
        h matches IpAddr::V6(a) ==> SocketAddr::spec_new(h, p) == (SocketAddr::V6 {
            ip: a,
            port: p,
            flowinfo: 0,
            scope_id: 0,
        }),
{
}

/// What the standard library's socket-address parser
/// (`<core::net::SocketAddr as FromStr>::from_str`) gives on a text: the
/// address, or the text of its parse error.
pub uninterp spec fn socket_addr_parse(s: Seq<char>) -> Result<SocketAddr, Seq<char>>;

/// What the standard library's IP-address parser
/// (`<core::net::IpAddr as FromStr>::from_str`) gives on a text: the
/// address, or the text of its parse error.
pub uninterp spec fn ip_addr_parse(s: Seq<char>) -> Result<IpAddr, Seq<char>>;

/// The view of a parse outcome whose error is a `String`.
pub open spec fn outcome_view<T>(r: Result<T, String>) -> Result<T, Seq<char>> {
    match r {
        Ok(a) => Ok(a),
        Err(e) => Err(e@),
    }
}

/// Parses `s` with `<core::net::SocketAddr as FromStr>::from_str`.
/// Trusted: the result, an address converted field by field or the
/// `Display` text of the `AddrParseError`, is `socket_addr_parse(s@)`.
#[verifier::external_body]
fn std_parse_socket_addr(s: &str) -> (r: Result<SocketAddr, String>)
    ensures
        outcome_view(r) == socket_addr_parse(s@),
{
    match s.parse::<core::net::SocketAddr>() {
        Ok(core::net::SocketAddr::V4(a)) => Ok(SocketAddr::V4 { ip: u32::from(*a.ip()), port: a.port() }),
        Ok(core::net::SocketAddr::V6(a)) => Ok(
            SocketAddr::V6 { ip: u128::from(*a.ip()), port: a.port(), flowinfo: a.flowinfo(), scope_id: a.scope_id() },
        ),
        Err(e) => Err(e.to_string()),
    }
}

/// Parses `s` with `<core::net::IpAddr as FromStr>::from_str`.
/// Trusted: the result, an address converted to its big-endian number or
/// the `Display` text of the `AddrParseError`, is `ip_addr_parse(s@)`.
#[verifier::external_body]
fn std_parse_ip_addr(s: &str) -> (r: Result<IpAddr, String>)
    ensures
        outcome_view(r) == ip_addr_parse(s@),
{
    match s.parse::<core::net::IpAddr>() {
        Ok(core::net::IpAddr::V4(a)) => Ok(IpAddr::V4(u32::from(a))),
        Ok(core::net::IpAddr::V6(a)) => Ok(IpAddr::V6(u128::from(a))),
        Err(e) => Err(e.to_string()),
    }
}

impl SocketAddr {
    /// Parses a socket address such as `127.0.0.1:8000` or `[::1]:8000`;
    /// on failure, the text of the parse error.
    pub fn parse(s: &str) -> (r: Result<SocketAddr, String>)
        ensures
            outcome_view(r) == socket_addr_parse(s@),
    {
        std_parse_socket_addr(s)
    }
}

impl IpAddr {
    /// Parses an IP address such as `127.0.0.1` or `::1`; on failure, the
    /// text of the parse error.
    pub fn parse(s: &str) -> (r: Result<IpAddr, String>)
        ensures
            outcome_view(r) == ip_addr_parse(s@),
    {
        std_parse_ip_addr(s)
    }
}

} // verus!

//! UDP clients of the relay and their connection state.

use crate::error::ServerError;
use crate::net::SocketAddr;
use tokio::net::UdpSocket;
use vstd::prelude::*;

verus! {

#[verifier::external_type_specification]
#[verifier::external_body]
pub struct ExUdpSocket(tokio::net::UdpSocket);

/// A UDP socket connected to a peer.
#[derive(Debug)]
pub struct ClientSocket {
    peer_addr: SocketAddr,
    socket: UdpSocket,
}

impl ClientSocket {
    /// The peer the socket is connected to.
    pub closed spec fn spec_peer(&self) -> SocketAddr {
        self.peer_addr
    }

    /// The underlying socket.
    pub closed spec fn spec_socket(&self) -> UdpSocket {
        self.socket
    }

    /// Wraps `socket`, which is connected to `peer`.
    pub fn new(peer: SocketAddr, socket: UdpSocket) -> (r: ClientSocket)
        ensures
            r.spec_peer() == peer,
            r.spec_socket() == socket,
    {
        ClientSocket { peer_addr: peer, socket }
    }

    /// The peer the socket is connected to.
    pub fn peer(&self) -> (r: SocketAddr)
        ensures
            r == self.spec_peer(),
    {
        self.peer_addr
    }

    /// Records that the socket is now connected to `peer`.
    pub fn set_peer(&mut self, peer: SocketAddr)
        ensures
            final(self).spec_peer() == peer,
            final(self).spec_socket() == old(self).spec_socket(),
    {
        self.peer_addr = peer;
    }

    /// The underlying socket.
    pub fn socket(&self) -> (r: &UdpSocket)
        ensures
            *r == self.spec_socket(),
    {
        &self.socket
    }
}

/// Where a client socket is in its life.
#[derive(Clone, Copy, Debug, PartialEq, Eq, Structural)]
pub enum SocketState {
    Established,
    Initialized,
    Listening,
    Disconnected,
}

/// A UDP client: an optional alias, the local address it binds, its socket
/// once connected, and its state.
#[derive(Debug)]
pub struct Client {
    alias: Option<String>,
    host: SocketAddr,
    socket: Option<ClientSocket>,
    state: SocketState,
}

/// What a client holds: its alias, its host, the peer of its socket if it
/// has one, and its state.
pub struct ClientView {
    pub alias: Option<Seq<char>>,
    pub host: SocketAddr,
    pub peer: Option<SocketAddr>,
    pub state: SocketState,
}

/// The view of an optional text.
pub open spec fn text_view(s: Option<String>) -> Option<Seq<char>> {
    match s {
        Some(t) => Some(t@),
        None => None,
    }
}

/// The alias as text: empty when there is none.
pub open spec fn alias_text(alias: Option<Seq<char>>) -> Seq<char> {
    match alias {
        Some(a) => a,
        None => Seq::empty(),
    }
}

/// The reason a connection is refused on a connected client.
pub open spec fn already_connected_text() -> Seq<char> {
    "Already connected"@
}

impl View for Client {
    type V = ClientView;

    closed spec fn view(&self) -> ClientView {
        ClientView {
            alias: text_view(self.alias),
            host: self.host,
            peer: match self.socket {
                Some(s) => Some(s.spec_peer()),
                None => None,
            },
            state: self.state,
        }
    }
}

impl Client {
    /// A disconnected client bound to `host`, with no socket yet.
    pub fn new(host: SocketAddr, alias: Option<String>) -> (r: Client)
        ensures
            r@ == (ClientView { alias: text_view(alias), host, peer: None, state: SocketState::Disconnected }),
    {
        Client { alias, host, socket: None, state: SocketState::Disconnected }
    }

    /// Sets the alias.
    pub fn set_alias(&mut self, alias: String)
        ensures
            final(self)@ == (ClientView { alias: Some(alias@), ..old(self)@ }),
    {
        self.alias = Some(alias);
    }

    /// The alias, or the empty text when there is none.
    pub fn alias(&self) -> (r: &str)
        ensures
            r@ == alias_text(self@.alias),
    {
        match &self.alias {
            Some(alias) => alias.as_str(),
            None => {
                proof {
                    reveal_strlit("");
                }
                ""
            },
        }
    }

    /// The local address the client binds.
    pub fn host(&self) -> (r: SocketAddr)
        ensures
            r == self@.host,
    {
        self.host
    }

    /// The state of the client.
    pub fn state(&self) -> (r: SocketState)
        ensures
            r == self@.state,
    {
        self.state
    }

    /// Whether the client may connect: it must not have a socket yet.
    pub fn check_connect(&self) -> (r: Result<(), ServerError>)
        ensures
            r is Ok <==> self@.peer is None,
            r matches Err(e) ==> e matches ServerError::Udp(m) && m@ == already_connected_text(),
    {
        if self.socket.is_some() {
            return Err(ServerError::Udp(String::from_str("Already connected")));
        }
        Ok(())
    }

    /// Takes the socket that connecting produced: the client is established.
    pub fn attach(&mut self, socket: ClientSocket)
        ensures
            final(self)@ == (ClientView {
                peer: Some(socket.spec_peer()),
                state: SocketState::Established,
                ..old(self)@
            }),
    {
        self.socket = Some(socket);
        self.state = SocketState::Established;
    }
}

} // verus!

//! The decisions of the relay server: when it may listen, how it answers
//! what a WebSocket client sends, what it does with what the upstream UDP
//! service sends, and how the tasks that serve one connection end.
//! The server itself (sockets, tasks, channels) performs these decisions.

use crate::config::Config;
use crate::error::ServerError;
use crate::signal::{
    bytes_content, is_decodable, law_payload_roundtrip, law_signal_roundtrip, message_of_signal,
    signal_of_message, unknown_signal_text, Message, MessageView, Signal, SignalView,
};
use bytes::Bytes;
use vstd::prelude::*;

verus! {

/// Whether the server may start listening: not when it already listens,
/// which is refused with its configuration.
pub fn listen_guard(listening: bool, config: &Config) -> (r: Result<(), ServerError>)
    ensures
        !listening ==> r is Ok,
        listening ==> r == Err::<(), ServerError>(ServerError::AlreadyStarted(*config)),
{
    if listening {
        return Err(ServerError::AlreadyStarted(*config));
    }
    Ok(())
}

/// How the relay reacts to a signal from a WebSocket client.
pub enum Reaction {
    /// Nothing to do.
    Skip,
    /// Answer the client with this signal.
    Reply(SignalView),
    /// Send these bytes to the upstream UDP service.
    Forward(Seq<u8>),
}

/// A pong is ignored, a ping is answered by a pong with its timestamp, data
/// is forwarded upstream, and anything else is answered as unknown.
pub open spec fn react(s: SignalView) -> Reaction {
    match s {
        SignalView::Pong(_) => Reaction::Skip,
        SignalView::Ping(t) => Reaction::Reply(SignalView::Pong(t)),
        SignalView::Data(d) => Reaction::Forward(d),
        SignalView::Unknown => Reaction::Reply(SignalView::Unknown),
    }
}

/// What happens on the WebSocket side of a connection.
#[derive(Debug)]
pub enum ClientEvent {
    /// The client sent a message.
    Received(Message),
    /// Reading from the client, or sending to it or upstream, failed.
    Failed(ServerError),
    /// The client's stream ended.
    Closed,
}

/// What the relay does on a WebSocket-side event.
#[derive(Debug)]
pub enum ClientAction {
    /// Wait for the next message.
    Skip,
    /// Send this signal to the client.
    Reply(Signal),
    /// Send these bytes to the upstream UDP service.
    Forward(Bytes),
    /// Stop serving the client's stream, with this outcome.
    Finish(Result<(), ServerError>),
}

/// The action performs the reaction.
pub open spec fn performs(a: ClientAction, r: Reaction) -> bool {
    match (a, r) {
        (ClientAction::Skip, Reaction::Skip) => true,
        (ClientAction::Reply(s), Reaction::Reply(v)) => s@ == v,
        (ClientAction::Forward(b), Reaction::Forward(d)) => bytes_content(b) == d,
        _ => false,
    }
}

/// Decides what to do on a WebSocket-side event: a message is read as a
/// signal and reacted to; a failure ends the stream with the error; the end
/// of the stream ends it successfully.
pub fn on_client_event(event: ClientEvent) -> (r: ClientAction)
    requires
        event matches ClientEvent::Received(m) ==> is_decodable(m@),
    ensures
        match event {
            ClientEvent::Received(m) => performs(r, react(signal_of_message(m@))),
            ClientEvent::Failed(e) => r == ClientAction::Finish(Err(e)),
            ClientEvent::Closed => r == ClientAction::Finish(Ok(())),
        },
{
    match event {
        ClientEvent::Received(msg) => {
            let signal = Signal::from_message(msg);
            match signal {
                Signal::Pong(_) => ClientAction::Skip,
                Signal::Ping(timestamp) => ClientAction::Reply(Signal::Pong(timestamp)),
                Signal::Data(data) => ClientAction::Forward(data),
                Signal::Unknown => ClientAction::Reply(Signal::Unknown),
            }
        },
        ClientEvent::Failed(e) => ClientAction::Finish(Err(e)),
        ClientEvent::Closed => ClientAction::Finish(Ok(())),
    }
}

/// What happens on the UDP side of a connection.
#[derive(Debug)]
pub enum UpstreamEvent {
    /// A datagram arrived from the upstream service.
    Datagram(Vec<u8>),
    /// Receiving from the upstream service failed.
    Failed(ServerError),
}

/// What the relay does on a UDP-side event.
#[derive(Debug)]
pub enum UpstreamAction {
    /// Hand this signal to the client's sender.
    Deliver(Signal),
    /// Stop receiving, with this outcome.
    Finish(Result<(), ServerError>),
}

/// An empty datagram ends the relay from upstream; any other is delivered
/// to the client as data.
pub open spec fn upstream_reaction(d: Seq<u8>) -> Option<SignalView> {
    if d.len() == 0 {
        None
    } else {
        Some(SignalView::Data(d))
    }
}

/// Decides what to do on a UDP-side event.
pub fn on_upstream_event(event: UpstreamEvent) -> (r: UpstreamAction)
    ensures
        match event {
            UpstreamEvent::Datagram(d) => match upstream_reaction(d@) {
                None => r == UpstreamAction::Finish(Ok(())),
                Some(s) => r matches UpstreamAction::Deliver(sig) && sig@ == s,
            },
            UpstreamEvent::Failed(e) => r == UpstreamAction::Finish(Err(e)),
        },
{
    match event {
        UpstreamEvent::Datagram(data) => {
            if data.len() == 0 {
                UpstreamAction::Finish(Ok(()))
            } else {
                UpstreamAction::Deliver(Signal::data(data))
            }
        },
        UpstreamEvent::Failed(e) => UpstreamAction::Finish(Err(e)),
    }
}

/// How one of the tasks serving a connection ends.
#[derive(Debug)]
pub enum TaskEvent<T, E> {
    /// Its work completed with this outcome.
    Completed(Result<T, E>),
    /// Another task of the connection ended first.
    Cancelled,
}

/// What a task's end means for the connection.
#[derive(Debug)]
pub struct TaskOutcome<T, E> {
    /// Whether the connection's other tasks must be cancelled.
    pub cancel_peers: bool,
    /// What the task returns.
    pub result: Result<T, E>,
}

/// Settles a task of a connection: the first task to complete cancels the
/// others and returns its own outcome; a cancelled task returns `fallback`.
pub fn settle_task<T, E>(event: TaskEvent<T, E>, fallback: T) -> (r: TaskOutcome<T, E>)
    ensures
        match event {
            TaskEvent::Completed(res) => r.cancel_peers && r.result == res,
            TaskEvent::Cancelled => !r.cancel_peers && r.result == Ok::<T, E>(fallback),
        },
{
    match event {
        TaskEvent::Completed(res) => TaskOutcome { cancel_peers: true, result: res },
        TaskEvent::Cancelled => TaskOutcome { cancel_peers: false, result: Ok(fallback) },
    }
}


/// A ping from a client with an 8-byte payload is answered by a pong whose
/// payload is the same 8 bytes.
pub proof fn law_ping_echoed(b: Seq<u8>)
    requires
        b.len() == 8,
    ensures
        react(signal_of_message(MessageView::Ping(b))) matches Reaction::Reply(s)
            && message_of_signal(s) == MessageView::Pong(b),
{
    law_payload_roundtrip(b);
}

/// A pong from a client is not answered.
pub proof fn law_pong_ignored(b: Seq<u8>)
    ensures
        react(signal_of_message(MessageView::Pong(b))) == Reaction::Skip,
{
}

/// Binary data from a client is forwarded upstream unchanged.
pub proof fn law_client_data_forwarded(d: Seq<u8>)
    ensures
        react(signal_of_message(MessageView::Binary(d))) == Reaction::Forward(d),
{
}

/// A non-empty datagram from upstream reaches the client as a binary
/// message holding the same bytes; an empty one delivers nothing.
pub proof fn law_upstream_data_delivered(d: Seq<u8>)
    ensures
        d.len() > 0 ==> (upstream_reaction(d) matches Some(s) && message_of_signal(s)
            == MessageView::Binary(d)),
        d.len() == 0 ==> upstream_reaction(d) is None,
{
}

/// A text message, a close or a raw frame from a client is answered with
/// the text "Unknown signal".
pub proof fn law_unknown_answered(m: MessageView)
    requires
        m is Text || m is Close || m is Frame,
    ensures
        react(signal_of_message(m)) matches Reaction::Reply(s) && message_of_signal(s)
            == MessageView::Text(unknown_signal_text()),
{
}

/// Every answer the relay gives a client can be read back by the client as
/// the signal that was meant.
pub proof fn law_replies_readable(m: MessageView)
    ensures
        react(signal_of_message(m)) matches Reaction::Reply(s) ==> is_decodable(message_of_signal(s))
            && signal_of_message(message_of_signal(s)) == s,
{
    if let Reaction::Reply(s) = react(signal_of_message(m)) {
        law_signal_roundtrip(s);
    }
}

} // verus!

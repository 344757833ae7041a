//! Verified core of a WebSocket-to-UDP relay: address and configuration
//! resolution, the wire signals exchanged with WebSocket clients, the
//! state of UDP clients, and the decisions the relay takes on each event.

pub mod client;
pub mod config;
pub mod deserializers;
pub mod error;
pub mod net;
pub mod outside;
pub mod signal;
pub mod websocket;

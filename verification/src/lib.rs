//! Reverse tunnel broker core.
//!
//! A listener on the public side and a connector on the private side
//! cooperate over QUIC to reach TCP services behind NAT. This crate holds the
//! decisions both sides make: the handshake frame that opens every stream, the
//! registries of live tunnels and bound ports, the admission of connectors,
//! the control API and the byte bridge. Sockets, QUIC and HTTP stay with the
//! caller, which feeds events in and carries actions out.

pub mod acceptor;
pub mod bridge;
pub mod config;
pub mod connector;
pub mod control;
pub mod frame;
pub mod identity;
pub mod listener;
pub mod pem;
pub mod ports;
pub mod registry;
pub mod session;
pub mod text;


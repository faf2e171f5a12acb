//! SOCKS5 ingress logic for a TUIC client, and the authentication latch of a
//! TUIC server connection.
//!
//! The library holds the decisions: the SOCKS5 wire codec, method and
//! credential negotiation, command dispatch, source locking of UDP
//! associations, the association table and the latch. Sockets, tasks and
//! timers belong to the program that drives it.
pub mod config;
pub mod address;
pub mod codec;
pub mod error;
pub mod server;
pub mod udp_session;
pub mod authenticated;

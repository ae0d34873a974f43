//! Byte-exact codec for the peer wire protocol (handshake and framed
//! messages) and for the UDP tracker connect and announce requests.
pub mod bytes;
pub mod messages;
pub mod handshake;
pub mod tracker;
pub mod laws;

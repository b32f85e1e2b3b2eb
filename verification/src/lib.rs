//! A verified core for a SOCKS5 proxy server.
//!
//! The library covers everything whose correctness depends on exact
//! byte-level framing: the greeting handshake, CONNECT request parsing
//! with all three address encodings, destination-string formatting, the
//! fixed reply, and the per-connection session state machine. Listening,
//! dialing and the byte relay are plain I/O and live outside the library.

pub mod addr;
pub mod codec;
pub mod error;
pub mod session;
pub mod text;

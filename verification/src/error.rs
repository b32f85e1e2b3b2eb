//! The error kinds a session can end with.

use vstd::prelude::*;

verus! {

/// Why a session failed.
///
/// `ProtocolViolation` is the only kind the parsing code itself produces:
/// an unexpected version byte, an unsupported command, a non-zero reserved
/// byte, or an unknown address-type tag. `TransportError` stands for a
/// read or write that failed at the OS level (including a stream that
/// ended before a complete message arrived), and `ConnectError` for a
/// destination dial that failed; both are raised by the I/O layer around
/// the library.
#[derive(Clone, Copy, Debug, PartialEq, Eq, Structural)]
pub enum SocksError {
    TransportError,
    ProtocolViolation,
    ConnectError,
}

impl SocksError {
    /// A fixed description, for logging by the host program.
    pub fn describe(&self) -> (r: &'static str)
        ensures
            r@ == match *self {
                SocksError::TransportError => "transport error"@,
                SocksError::ProtocolViolation => "protocol violation"@,
                SocksError::ConnectError => "connect error"@,
            },
    {
        match *self {
            SocksError::TransportError => "transport error",
            SocksError::ProtocolViolation => "protocol violation",
            SocksError::ConnectError => "connect error",
        }
    }
}

} // verus!

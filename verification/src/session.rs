//! The per-connection session driver.
//!
//! One accepted connection walks a fixed pipeline: greeting, method
//! list, request header, destination address, dial, reply, relay. The
//! driver is a state machine over exactly those steps: each state says
//! how many bytes it needs next, and [`phase_step`] consumes them and
//! decides the transition. The host program only reads the requested
//! bytes, writes the returned replies, dials, and pumps the relay; it
//! makes no protocol decision of its own. Any malformed input moves
//! the session to `Failed` with the error recorded — never a panic —
//! so one bad connection cannot disturb the others.

use vstd::prelude::*;
use crate::addr::{
    DestAddr, DestAddrModel, Host, HostModel, dest_text, dest_text_of,
};
use crate::codec::{
    CMD_CONNECT, REPLY_FAILURE, REPLY_SUCCEEDED, SOCKS_VERSION, be16, groups_of_bytes, spec_be16,
    spec_reply,
};
use crate::error::SocksError;
use vstd::slice::{slice_index_get, slice_subrange, slice_to_vec};

verus! {

/// Where a session stands. The reading states carry what the next
/// read depends on: the method count from the greeting, and the
/// address tag and payload length from the request header.
pub enum Phase {
    /// Awaiting the two greeting bytes: version and method count.
    Greeting,
    /// Awaiting the offered method identifiers.
    Methods { nmethods: u8 },
    /// Awaiting the four request header bytes: version, command,
    /// reserved, address tag.
    Request,
    /// Awaiting the one-byte length of a domain name.
    DomainLen,
    /// Awaiting the address payload and the two port bytes.
    AddrPort { atyp: u8, addr_len: u8 },
    /// The request is parsed; the host program dials `dest`.
    Connect { dest: String },
    /// The reply went out; bytes are pumped both ways until both
    /// directions end.
    Relay,
    /// Both relay directions ended; the session is over.
    Closed,
    /// The session failed; `err` says how, for logging.
    Failed { err: SocksError },
}

/// The mathematical value of a [`Phase`].
pub enum PhaseModel {
    Greeting,
    Methods { nmethods: u8 },
    Request,
    DomainLen,
    AddrPort { atyp: u8, addr_len: u8 },
    Connect { dest: Seq<char> },
    Relay,
    Closed,
    Failed { err: SocksError },
}

impl View for Phase {
    type V = PhaseModel;

    open spec fn view(&self) -> PhaseModel {
        match self {
            Phase::Greeting => PhaseModel::Greeting,
            Phase::Methods { nmethods } => PhaseModel::Methods { nmethods: *nmethods },
            Phase::Request => PhaseModel::Request,
            Phase::DomainLen => PhaseModel::DomainLen,
            Phase::AddrPort { atyp, addr_len } => PhaseModel::AddrPort {
                atyp: *atyp,
                addr_len: *addr_len,
            },
            Phase::Connect { dest } => PhaseModel::Connect { dest: dest@ },
            Phase::Relay => PhaseModel::Relay,
            Phase::Closed => PhaseModel::Closed,
            Phase::Failed { err } => PhaseModel::Failed { err: *err },
        }
    }
}

/// An `AddrPort` phase only ever carries one of the three known tags,
/// each with the payload length its encoding fixes (a domain name may
/// have any length the one-byte length field can hold).
pub open spec fn phase_wf(p: PhaseModel) -> bool {
    match p {
        PhaseModel::AddrPort { atyp, addr_len } => (atyp == 1 && addr_len == 4) || atyp == 3 || (
        atyp == 4 && addr_len == 16),
        _ => true,
    }
}

/// How many bytes the phase needs before it can step.
pub open spec fn phase_needed_spec(p: PhaseModel) -> int {
    match p {
        PhaseModel::Greeting => 2,
        PhaseModel::Methods { nmethods } => nmethods as int,
        PhaseModel::Request => 4,
        PhaseModel::DomainLen => 1,
        PhaseModel::AddrPort { atyp: _, addr_len } => addr_len as int + 2,
        _ => 0,
    }
}

/// The destination an `AddrPort` phase parses from its bytes: the
/// payload under the tag's encoding, then the big-endian port.
pub open spec fn addr_port_dest(atyp: u8, bytes: Seq<u8>) -> DestAddrModel
    recommends
        bytes.len() >= 2,
{
    let payload = bytes.subrange(0, bytes.len() - 2);
    DestAddrModel {
        host: if atyp == 1 {
            HostModel::V4(payload)
        } else if atyp == 3 {
            HostModel::Domain(payload)
        } else {
            HostModel::V6(groups_of_bytes(payload))
        },
        port: spec_be16(bytes[bytes.len() - 2], bytes[bytes.len() - 1]),
    }
}

/// The transition a phase makes on the bytes it asked for. Protocol
/// checks happen in stream order; every violation lands in `Failed`
/// with `ProtocolViolation`.
pub open spec fn spec_phase_step(p: PhaseModel, bytes: Seq<u8>) -> PhaseModel
    recommends
        bytes.len() == phase_needed_spec(p),
        phase_wf(p),
{
    match p {
        PhaseModel::Greeting => {
            if bytes[0] != SOCKS_VERSION {
                PhaseModel::Failed { err: SocksError::ProtocolViolation }
            } else {
                PhaseModel::Methods { nmethods: bytes[1] }
            }
        },
        PhaseModel::Methods { nmethods: _ } => PhaseModel::Request,
        PhaseModel::Request => {
            if bytes[0] != SOCKS_VERSION {
                PhaseModel::Failed { err: SocksError::ProtocolViolation }
            } else if bytes[1] != CMD_CONNECT {
                PhaseModel::Failed { err: SocksError::ProtocolViolation }
            } else if bytes[2] != 0 {
                PhaseModel::Failed { err: SocksError::ProtocolViolation }
            } else if bytes[3] == 1 {
                PhaseModel::AddrPort { atyp: 1, addr_len: 4 }
            } else if bytes[3] == 3 {
                PhaseModel::DomainLen
            } else if bytes[3] == 4 {
                PhaseModel::AddrPort { atyp: 4, addr_len: 16 }
            } else {
                PhaseModel::Failed { err: SocksError::ProtocolViolation }
            }
        },
        PhaseModel::DomainLen => PhaseModel::AddrPort { atyp: 3, addr_len: bytes[0] },
        PhaseModel::AddrPort { atyp, addr_len: _ } => PhaseModel::Connect {
            dest: dest_text(addr_port_dest(atyp, bytes)),
        },
        PhaseModel::Connect { dest } => PhaseModel::Connect { dest },
        PhaseModel::Relay => PhaseModel::Closed,
        PhaseModel::Closed => PhaseModel::Closed,
        PhaseModel::Failed { err } => PhaseModel::Failed { err },
    }
}

/// How many bytes to read before calling [`phase_step`]; zero for the
/// phases that are driven by the dial or the relay instead of a read.
pub fn phase_needed(p: &Phase) -> (r: usize)
    ensures
        r as int == phase_needed_spec(p@),
{
    match p {
        Phase::Greeting => 2,
        Phase::Methods { nmethods } => *nmethods as usize,
        Phase::Request => 4,
        Phase::DomainLen => 1,
        Phase::AddrPort { atyp: _, addr_len } => *addr_len as usize + 2,
        _ => 0,
    }
}

/// Steps the session on the bytes the phase asked for. The second
/// component is the message to send the client now: the fixed `05 00`
/// method selection, exactly when the method list has just been
/// consumed.
pub fn phase_step(p: Phase, bytes: &[u8]) -> (r: (Phase, Option<Vec<u8>>))
    requires
        phase_wf(p@),
        bytes@.len() == phase_needed_spec(p@),
    ensures
        r.0@ == spec_phase_step(p@, bytes@),
        phase_wf(r.0@),
        match r.1 {
            Some(reply) => p@ is Methods && reply@ == seq![SOCKS_VERSION, 0u8],
            None => !(p@ is Methods),
        },
{
    match p {
        Phase::Greeting => {
            if *slice_index_get(bytes, 0) != SOCKS_VERSION {
                (Phase::Failed { err: SocksError::ProtocolViolation }, None)
            } else {
                (Phase::Methods { nmethods: *slice_index_get(bytes, 1) }, None)
            }
        },
        Phase::Methods { nmethods: _ } => (Phase::Request, Some(crate::codec::greeting_reply())),
        Phase::Request => {
            if *slice_index_get(bytes, 0) != SOCKS_VERSION {
                (Phase::Failed { err: SocksError::ProtocolViolation }, None)
            } else if *slice_index_get(bytes, 1) != CMD_CONNECT {
                (Phase::Failed { err: SocksError::ProtocolViolation }, None)
            } else if *slice_index_get(bytes, 2) != 0 {
                (Phase::Failed { err: SocksError::ProtocolViolation }, None)
            } else {
                let atyp = *slice_index_get(bytes, 3);
                if atyp == 1 {
                    (Phase::AddrPort { atyp: 1, addr_len: 4 }, None)
                } else if atyp == 3 {
                    (Phase::DomainLen, None)
                } else if atyp == 4 {
                    (Phase::AddrPort { atyp: 4, addr_len: 16 }, None)
                } else {
                    (Phase::Failed { err: SocksError::ProtocolViolation }, None)
                }
            }
        },
        Phase::DomainLen => (
            Phase::AddrPort { atyp: 3, addr_len: *slice_index_get(bytes, 0) },
            None,
        ),
        Phase::AddrPort { atyp, addr_len } => {
            let payload_len = addr_len as usize;
            let host = if atyp == 1 {
                let octets: [u8; 4] = [
                    *slice_index_get(bytes, 0),
                    *slice_index_get(bytes, 1),
                    *slice_index_get(bytes, 2),
                    *slice_index_get(bytes, 3),
                ];
                proof {
                    assert(octets@ =~= bytes@.subrange(0, bytes@.len() - 2));
                }
                Host::V4(octets)
            } else if atyp == 3 {
                let name = slice_to_vec(slice_subrange(bytes, 0, payload_len));
                proof {
                    assert(name@ =~= bytes@.subrange(0, bytes@.len() - 2));
                }
                Host::Domain(name)
            } else {
                let groups: [u16; 8] = [
                    be16(*slice_index_get(bytes, 0), *slice_index_get(bytes, 1)),
                    be16(*slice_index_get(bytes, 2), *slice_index_get(bytes, 3)),
                    be16(*slice_index_get(bytes, 4), *slice_index_get(bytes, 5)),
                    be16(*slice_index_get(bytes, 6), *slice_index_get(bytes, 7)),
                    be16(*slice_index_get(bytes, 8), *slice_index_get(bytes, 9)),
                    be16(*slice_index_get(bytes, 10), *slice_index_get(bytes, 11)),
                    be16(*slice_index_get(bytes, 12), *slice_index_get(bytes, 13)),
                    be16(*slice_index_get(bytes, 14), *slice_index_get(bytes, 15)),
                ];
                proof {
                    assert(groups@ =~= groups_of_bytes(bytes@.subrange(0, bytes@.len() - 2)));
                }
                Host::V6(groups)
            };
            let port = be16(
                *slice_index_get(bytes, payload_len),
                *slice_index_get(bytes, payload_len + 1),
            );
            let dest = DestAddr { host, port };
            proof {
                assert(dest@ == addr_port_dest(atyp, bytes@));
            }
            (Phase::Connect { dest: dest_text_of(&dest) }, None)
        },
        Phase::Connect { dest } => (Phase::Connect { dest }, None),
        Phase::Relay => (Phase::Closed, None),
        Phase::Closed => (Phase::Closed, None),
        Phase::Failed { err } => (Phase::Failed { err }, None),
    }
}

/// The dial for a `Connect` destination succeeded: the session moves
/// to `Relay`, and the bytes to send the client are the success reply.
/// No reply byte goes out before this point.
pub fn phase_connected() -> (r: (Phase, Vec<u8>))
    ensures
        r.0@ == PhaseModel::Relay,
        r.1@ == spec_reply(REPLY_SUCCEEDED),
{
    (Phase::Relay, crate::codec::reply_bytes(REPLY_SUCCEEDED))
}

/// The dial failed: the session moves to `Failed` with `ConnectError`,
/// and the bytes to send the client are a reply whose status reports
/// the failure.
pub fn phase_connect_failed() -> (r: (Phase, Vec<u8>))
    ensures
        r.0@ == (PhaseModel::Failed { err: SocksError::ConnectError }),
        r.1@ == spec_reply(REPLY_FAILURE),
{
    (
        Phase::Failed { err: SocksError::ConnectError },
        crate::codec::reply_bytes(REPLY_FAILURE),
    )
}

} // verus!

//! The wire codec: greeting handshake, CONNECT request with its three
//! address encodings, and the fixed reply.
//!
//! Every parser takes the bytes read so far and either consumes a whole
//! message (returning how many bytes it used), reports that the peer
//! broke the protocol, or reports that the buffer ends before the
//! message does — which on a stream means the transport failed.

use vstd::prelude::*;
use vstd::arithmetic::div_mod::lemma_fundamental_div_mod;
use vstd::slice::{slice_index_get, slice_subrange, slice_to_vec};
use crate::addr::{DestAddr, DestAddrModel, Host, HostModel, dest_text, dest_wf};
use crate::error::SocksError;

verus! {

/// The SOCKS protocol version this library speaks.
pub const SOCKS_VERSION: u8 = 5;

/// The only command the library supports: CONNECT.
pub const CMD_CONNECT: u8 = 1;

/// Reply status for a destination that was dialed successfully.
pub const REPLY_SUCCEEDED: u8 = 0;

/// Reply status for a dial that failed (general server failure).
pub const REPLY_FAILURE: u8 = 1;

/// A big-endian 16-bit value from two bytes.
pub open spec fn spec_be16(hi: u8, lo: u8) -> u16 {
    ((hi as int) * 256 + (lo as int)) as u16
}

/// The two big-endian bytes of a 16-bit value.
pub open spec fn port_bytes(port: u16) -> Seq<u8> {
    seq![(port / 256) as u8, (port % 256) as u8]
}

/// The eight 16-bit groups read big-endian from 16 address bytes.
pub open spec fn groups_of_bytes(bytes: Seq<u8>) -> Seq<u16>
    recommends
        bytes.len() == 16,
{
    Seq::new(8, |i: int| spec_be16(bytes[2 * i], bytes[2 * i + 1]))
}

/// The 16 big-endian bytes of eight 16-bit groups.
pub open spec fn bytes_of_groups(groups: Seq<u16>) -> Seq<u8>
    recommends
        groups.len() == 8,
{
    Seq::new(16, |i: int|
        if i % 2 == 0 {
            (groups[i / 2] / 256) as u8
        } else {
            (groups[i / 2] % 256) as u8
        }
    )
}

/// What parsing a client greeting from `bytes` yields: the number of
/// bytes the whole message occupies, or the error. The checks happen in
/// stream order: version first, then the method count, then the
/// methods; a buffer that ends mid-message is a transport fault.
pub open spec fn spec_parse_greeting(bytes: Seq<u8>) -> Result<int, SocksError> {
    if bytes.len() < 1 {
        Err(SocksError::TransportError)
    } else if bytes[0] != SOCKS_VERSION {
        Err(SocksError::ProtocolViolation)
    } else if bytes.len() < 2 {
        Err(SocksError::TransportError)
    } else if bytes.len() < 2 + bytes[1] {
        Err(SocksError::TransportError)
    } else {
        Ok(2 + bytes[1] as int)
    }
}

/// What decoding an address block (ATYP, payload, port) from `bytes`
/// yields: host, port and the number of bytes consumed, or the error.
pub open spec fn spec_decode_addr(bytes: Seq<u8>) -> Result<(HostModel, u16, int), SocksError> {
    if bytes.len() < 1 {
        Err(SocksError::TransportError)
    } else if bytes[0] == 1 {
        if bytes.len() < 7 {
            Err(SocksError::TransportError)
        } else {
            Ok((HostModel::V4(bytes.subrange(1, 5)), spec_be16(bytes[5], bytes[6]), 7))
        }
    } else if bytes[0] == 3 {
        if bytes.len() < 2 {
            Err(SocksError::TransportError)
        } else if bytes.len() < 4 + bytes[1] {
            Err(SocksError::TransportError)
        } else {
            Ok(
                (
                    HostModel::Domain(bytes.subrange(2, 2 + bytes[1])),
                    spec_be16(bytes[2 + bytes[1]], bytes[3 + bytes[1]]),
                    4 + bytes[1],
                ),
            )
        }
    } else if bytes[0] == 4 {
        if bytes.len() < 19 {
            Err(SocksError::TransportError)
        } else {
            Ok(
                (
                    HostModel::V6(groups_of_bytes(bytes.subrange(1, 17))),
                    spec_be16(bytes[17], bytes[18]),
                    19,
                ),
            )
        }
    } else {
        Err(SocksError::ProtocolViolation)
    }
}

/// What parsing a CONNECT request from `bytes` yields: host, port and
/// the number of bytes the whole request occupies, or the error. The
/// version, command and reserved bytes are checked in stream order;
/// the address block follows.
pub open spec fn spec_parse_request(bytes: Seq<u8>) -> Result<(HostModel, u16, int), SocksError> {
    if bytes.len() < 1 {
        Err(SocksError::TransportError)
    } else if bytes[0] != SOCKS_VERSION {
        Err(SocksError::ProtocolViolation)
    } else if bytes.len() < 2 {
        Err(SocksError::TransportError)
    } else if bytes[1] != CMD_CONNECT {
        Err(SocksError::ProtocolViolation)
    } else if bytes.len() < 3 {
        Err(SocksError::TransportError)
    } else if bytes[2] != 0 {
        Err(SocksError::ProtocolViolation)
    } else {
        match spec_decode_addr(bytes.skip(3)) {
            Ok((host, port, used)) => Ok((host, port, 3 + used)),
            Err(e) => Err(e),
        }
    }
}

/// The wire bytes that carry a destination: ATYP tag, payload (with
/// the length byte for a domain), then the big-endian port.
pub open spec fn spec_encode_addr(d: DestAddrModel) -> Seq<u8> {
    match d.host {
        HostModel::V4(bytes) => seq![1u8] + bytes + port_bytes(d.port),
        HostModel::Domain(bytes) => seq![3u8, bytes.len() as u8] + bytes + port_bytes(d.port),
        HostModel::V6(groups) => seq![4u8] + bytes_of_groups(groups) + port_bytes(d.port),
    }
}

/// The fixed ten-byte reply: version, status, reserved, then a
/// placeholder IPv4 bound address and port of all zeros.
pub open spec fn spec_reply(status: u8) -> Seq<u8> {
    seq![SOCKS_VERSION, status, 0u8, 1u8, 0u8, 0u8, 0u8, 0u8, 0u8, 0u8]
}

/// A `usize` payload mapped into the spec world, errors unchanged.
pub open spec fn count_result(r: Result<usize, SocksError>) -> Result<int, SocksError> {
    match r {
        Ok(n) => Ok(n as int),
        Err(e) => Err(e),
    }
}

/// A big-endian 16-bit value from two bytes.
pub fn be16(hi: u8, lo: u8) -> (r: u16)
    ensures
        r == spec_be16(hi, lo),
{
    (hi as u16) * 256 + (lo as u16)
}

/// Consumes one client greeting from the front of `bytes` and returns
/// how many bytes it occupied. The reply to send back is
/// [`greeting_reply`], whatever methods were offered.
pub fn parse_greeting(bytes: &[u8]) -> (r: Result<usize, SocksError>)
    ensures
        count_result(r) == spec_parse_greeting(bytes@),
{
    if bytes.len() < 1 {
        return Err(SocksError::TransportError);
    }
    if *slice_index_get(bytes, 0) != SOCKS_VERSION {
        return Err(SocksError::ProtocolViolation);
    }
    if bytes.len() < 2 {
        return Err(SocksError::TransportError);
    }
    let nmethods = *slice_index_get(bytes, 1);
    if bytes.len() < 2 + nmethods as usize {
        return Err(SocksError::TransportError);
    }
    Ok(2 + nmethods as usize)
}

/// The method-selection reply: version 5, method 0 ("no
/// authentication"), always — no other method is ever selected.
pub fn greeting_reply() -> (r: Vec<u8>)
    ensures
        r@ == seq![SOCKS_VERSION, 0u8],
{
    let mut reply: Vec<u8> = Vec::new();
    reply.push(SOCKS_VERSION);
    reply.push(0);
    proof {
        assert(reply@ =~= seq![SOCKS_VERSION, 0u8]);
    }
    reply
}

/// Decodes one address block (ATYP, payload, port) from the front of
/// `bytes`; returns the destination and how many bytes it occupied.
pub fn decode_addr(bytes: &[u8]) -> (r: Result<(DestAddr, usize), SocksError>)
    ensures
        match r {
            Ok(parsed) => dest_wf(parsed.0@) && spec_decode_addr(bytes@) == Ok::<
                (HostModel, u16, int),
                SocksError,
            >((parsed.0@.host, parsed.0@.port, parsed.1 as int)),
            Err(e) => spec_decode_addr(bytes@) == Err::<(HostModel, u16, int), SocksError>(e),
        },
{
    if bytes.len() < 1 {
        return Err(SocksError::TransportError);
    }
    let atyp = *slice_index_get(bytes, 0);
    if atyp == 1 {
        if bytes.len() < 7 {
            return Err(SocksError::TransportError);
        }
        let octets: [u8; 4] = [
            *slice_index_get(bytes, 1),
            *slice_index_get(bytes, 2),
            *slice_index_get(bytes, 3),
            *slice_index_get(bytes, 4),
        ];
        let port = be16(*slice_index_get(bytes, 5), *slice_index_get(bytes, 6));
        proof {
            assert(octets@ =~= bytes@.subrange(1, 5));
        }
        Ok((DestAddr { host: Host::V4(octets), port }, 7))
    } else if atyp == 3 {
        if bytes.len() < 2 {
            return Err(SocksError::TransportError);
        }
        let name_len = *slice_index_get(bytes, 1) as usize;
        if bytes.len() < 4 + name_len {
            return Err(SocksError::TransportError);
        }
        let name = slice_to_vec(slice_subrange(bytes, 2, 2 + name_len));
        let port = be16(*slice_index_get(bytes, 2 + name_len), *slice_index_get(bytes, 3 + name_len));
        Ok((DestAddr { host: Host::Domain(name), port }, 4 + name_len))
    } else if atyp == 4 {
        if bytes.len() < 19 {
            return Err(SocksError::TransportError);
        }
        let groups: [u16; 8] = [
            be16(*slice_index_get(bytes, 1), *slice_index_get(bytes, 2)),
            be16(*slice_index_get(bytes, 3), *slice_index_get(bytes, 4)),
            be16(*slice_index_get(bytes, 5), *slice_index_get(bytes, 6)),
            be16(*slice_index_get(bytes, 7), *slice_index_get(bytes, 8)),
            be16(*slice_index_get(bytes, 9), *slice_index_get(bytes, 10)),
            be16(*slice_index_get(bytes, 11), *slice_index_get(bytes, 12)),
            be16(*slice_index_get(bytes, 13), *slice_index_get(bytes, 14)),
            be16(*slice_index_get(bytes, 15), *slice_index_get(bytes, 16)),
        ];
        let port = be16(*slice_index_get(bytes, 17), *slice_index_get(bytes, 18));
        proof {
            assert(groups@ =~= groups_of_bytes(bytes@.subrange(1, 17)));
        }
        Ok((DestAddr { host: Host::V6(groups), port }, 19))
    } else {
        Err(SocksError::ProtocolViolation)
    }
}

/// Consumes one CONNECT request from the front of `bytes`; returns the
/// destination and how many bytes the request occupied.
pub fn parse_request(bytes: &[u8]) -> (r: Result<(DestAddr, usize), SocksError>)
    ensures
        match r {
            Ok(parsed) => dest_wf(parsed.0@) && spec_parse_request(bytes@) == Ok::<
                (HostModel, u16, int),
                SocksError,
            >((parsed.0@.host, parsed.0@.port, parsed.1 as int)),
            Err(e) => spec_parse_request(bytes@) == Err::<(HostModel, u16, int), SocksError>(e),
        },
{
    if bytes.len() < 1 {
        return Err(SocksError::TransportError);
    }
    if *slice_index_get(bytes, 0) != SOCKS_VERSION {
        return Err(SocksError::ProtocolViolation);
    }
    if bytes.len() < 2 {
        return Err(SocksError::TransportError);
    }
    if *slice_index_get(bytes, 1) != CMD_CONNECT {
        return Err(SocksError::ProtocolViolation);
    }
    if bytes.len() < 3 {
        return Err(SocksError::TransportError);
    }
    if *slice_index_get(bytes, 2) != 0 {
        return Err(SocksError::ProtocolViolation);
    }
    let rest = slice_subrange(bytes, 3, bytes.len());
    proof {
        assert(rest@ =~= bytes@.skip(3));
    }
    match decode_addr(rest) {
        Ok((dest, used)) => Ok((dest, 3 + used)),
        Err(e) => Err(e),
    }
}

/// Encodes a destination into the wire form [`spec_encode_addr`]
/// describes: ATYP tag, payload, big-endian port.
pub fn encode_addr(d: &DestAddr) -> (r: Vec<u8>)
    requires
        dest_wf(d@),
    ensures
        r@ == spec_encode_addr(d@),
{
    let mut out: Vec<u8> = Vec::new();
    match &d.host {
        Host::V4(octets) => {
            out.push(1);
            out.push(octets[0]);
            out.push(octets[1]);
            out.push(octets[2]);
            out.push(octets[3]);
        },
        Host::Domain(name) => {
            out.push(3);
            out.push(name.len() as u8);
            let ghost head = out@;
            for i in 0..name.len()
                invariant
                    out@ == head + name@.subrange(0, i as int),
            {
                out.push(name[i]);
                proof {
                    assert(out@ =~= head + name@.subrange(0, i as int + 1));
                }
            }
            proof {
                assert(name@.subrange(0, name@.len() as int) =~= name@);
            }
        },
        Host::V6(groups) => {
            out.push(4);
            let ghost head = out@;
            for i in 0..8usize
                invariant
                    out@ == head + bytes_of_groups(groups@).subrange(0, 2 * i as int),
                    groups@.len() == 8,
            {
                out.push((groups[i] / 256) as u8);
                out.push((groups[i] % 256) as u8);
                proof {
                    assert(out@ =~= head + bytes_of_groups(groups@).subrange(0, 2 * (i as int + 1)));
                }
            }
            proof {
                assert(bytes_of_groups(groups@).subrange(0, 16) =~= bytes_of_groups(groups@));
            }
        },
    }
    out.push((d.port / 256) as u8);
    out.push((d.port % 256) as u8);
    proof {
        assert(out@ =~= spec_encode_addr(d@));
    }
    out
}

/// The ten reply bytes for a given status: version, status, reserved
/// zero, then the placeholder IPv4 bound address and port of zeros.
pub fn reply_bytes(status: u8) -> (r: Vec<u8>)
    ensures
        r@ == spec_reply(status),
{
    let mut reply: Vec<u8> = Vec::new();
    reply.push(SOCKS_VERSION);
    reply.push(status);
    reply.push(0);
    reply.push(1);
    reply.push(0);
    reply.push(0);
    reply.push(0);
    reply.push(0);
    reply.push(0);
    reply.push(0);
    proof {
        assert(reply@ =~= spec_reply(status));
    }
    reply
}

/// Every valid greeting — version 5 offering a non-empty method list —
/// is accepted whole; the reply is then [`greeting_reply`], whose
/// contract fixes it to exactly the two bytes `05 00`.
pub proof fn lemma_valid_greeting_accepted(bytes: Seq<u8>)
    requires
        bytes.len() >= 1,
        bytes[0] == SOCKS_VERSION,
        bytes.len() >= 2,
        bytes[1] >= 1,
        bytes.len() == 2 + bytes[1],
    ensures
        spec_parse_greeting(bytes) == Ok::<int, SocksError>(bytes.len() as int),
{
}

/// A version byte other than 5 at the front of either message is
/// reported as a protocol violation — never as a transport fault, and
/// never by failing: the parsers return the error to their caller, so
/// one misbehaving client cannot take the process down with it.
pub proof fn lemma_bad_version_rejected(bytes: Seq<u8>)
    requires
        bytes.len() >= 1,
        bytes[0] != SOCKS_VERSION,
    ensures
        spec_parse_greeting(bytes) == Err::<int, SocksError>(SocksError::ProtocolViolation),
        spec_parse_request(bytes) == Err::<(HostModel, u16, int), SocksError>(
            SocksError::ProtocolViolation,
        ),
{
}

/// Round trip: decoding an encoded destination consumes exactly the
/// encoded bytes and yields the destination back — so in particular
/// the same textual `host:port` — for each of the three address types.
pub proof fn lemma_encode_decode_round_trip(d: DestAddrModel)
    requires
        dest_wf(d),
    ensures
        spec_decode_addr(spec_encode_addr(d)) == Ok::<(HostModel, u16, int), SocksError>(
            (d.host, d.port, spec_encode_addr(d).len() as int),
        ),
        dest_text(
            match spec_decode_addr(spec_encode_addr(d)) {
                Ok(parsed) => DestAddrModel { host: parsed.0, port: parsed.1 },
                Err(_) => d,
            },
        ) == dest_text(d),
{
    let enc = spec_encode_addr(d);
    lemma_fundamental_div_mod(d.port as int, 256);
    match d.host {
        HostModel::V4(bytes) => {
            assert(enc.subrange(1, 5) =~= bytes);
            assert(spec_be16(enc[5], enc[6]) == d.port);
        },
        HostModel::Domain(bytes) => {
            let len = bytes.len() as int;
            assert(enc[1] == len as u8);
            assert(enc.subrange(2, 2 + len) =~= bytes);
            assert(enc[2 + len] == (d.port / 256) as u8);
            assert(enc[3 + len] == (d.port % 256) as u8);
            assert(spec_be16(enc[2 + len], enc[3 + len]) == d.port);
        },
        HostModel::V6(groups) => {
            assert(enc.subrange(1, 17) =~= bytes_of_groups(groups));
            assert forall|i: int| 0 <= i < 8 implies groups_of_bytes(bytes_of_groups(groups))[i]
                == groups[i] by {
                lemma_fundamental_div_mod(groups[i] as int, 256);
                assert(bytes_of_groups(groups)[2 * i] == (groups[i] / 256) as u8);
                assert(bytes_of_groups(groups)[2 * i + 1] == (groups[i] % 256) as u8);
            }
            assert(groups_of_bytes(bytes_of_groups(groups)) =~= groups);
            assert(spec_be16(enc[17], enc[18]) == d.port);
        },
    }
}

} // verus!

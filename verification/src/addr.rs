//! Destination addresses: the three SOCKS5 address encodings and their
//! textual `host:port` form.

use vstd::prelude::*;
use vstd::string::StringExecFns;
use crate::text::{
    all_ascii, ascii_chars, dec_text, hex_text, utf8_lossy, utf8_lossy_text,
};

verus! {

/// A destination host, one of the three encodings a CONNECT request may
/// carry: a 4-byte IPv4 address, a domain name of at most 255 raw bytes,
/// or an 8-group IPv6 address.
#[derive(Debug, PartialEq, Eq)]
pub enum Host {
    V4([u8; 4]),
    Domain(Vec<u8>),
    V6([u16; 8]),
}

/// The mathematical value of a [`Host`].
pub enum HostModel {
    V4(Seq<u8>),
    Domain(Seq<u8>),
    V6(Seq<u16>),
}

impl View for Host {
    type V = HostModel;

    open spec fn view(&self) -> HostModel {
        match self {
            Host::V4(bytes) => HostModel::V4(bytes@),
            Host::Domain(bytes) => HostModel::Domain(bytes@),
            Host::V6(groups) => HostModel::V6(groups@),
        }
    }
}

/// Well-formedness of a host value: the payload has the length its tag
/// demands (a domain-name length must fit the one-byte length field).
pub open spec fn host_wf(h: HostModel) -> bool {
    match h {
        HostModel::V4(bytes) => bytes.len() == 4,
        HostModel::Domain(bytes) => bytes.len() <= 255,
        HostModel::V6(groups) => groups.len() == 8,
    }
}

/// A parsed destination: host and 16-bit port.
#[derive(Debug, PartialEq, Eq)]
pub struct DestAddr {
    pub host: Host,
    pub port: u16,
}

/// The mathematical value of a [`DestAddr`].
pub struct DestAddrModel {
    pub host: HostModel,
    pub port: u16,
}

impl View for DestAddr {
    type V = DestAddrModel;

    open spec fn view(&self) -> DestAddrModel {
        DestAddrModel { host: self.host@, port: self.port }
    }
}

/// Well-formedness of a destination.
pub open spec fn dest_wf(d: DestAddrModel) -> bool {
    host_wf(d.host)
}

/// Dotted-decimal text of four IPv4 bytes.
pub open spec fn ipv4_text(bytes: Seq<u8>) -> Seq<char>
    recommends
        bytes.len() == 4,
{
    dec_text(bytes[0] as nat) + seq!['.'] + dec_text(bytes[1] as nat) + seq!['.'] + dec_text(
        bytes[2] as nat,
    ) + seq!['.'] + dec_text(bytes[3] as nat)
}

/// Length of the run of zero groups starting at index `i`.
pub open spec fn zero_run_len(groups: Seq<u16>, i: int) -> nat
    decreases groups.len() - i,
{
    if i < 0 || i >= groups.len() || groups[i] != 0 {
        0
    } else {
        1 + zero_run_len(groups, i + 1)
    }
}

/// The start of the longest run of zero groups among indices `i..`,
/// taking the leftmost on ties.
pub open spec fn best_run_from(groups: Seq<u16>, i: int) -> int
    recommends
        0 <= i < groups.len(),
    decreases groups.len() - i,
{
    if i + 1 >= groups.len() {
        i
    } else {
        let rest = best_run_from(groups, i + 1);
        if zero_run_len(groups, i) >= zero_run_len(groups, rest) {
            i
        } else {
            rest
        }
    }
}

/// The start of the longest (leftmost on ties) run of zero groups.
pub open spec fn best_run_start(groups: Seq<u16>) -> int {
    best_run_from(groups, 0)
}

/// The groups rendered in hexadecimal and joined with `:`.
pub open spec fn groups_text(groups: Seq<u16>) -> Seq<char>
    decreases groups.len(),
{
    if groups.len() == 0 {
        Seq::empty()
    } else if groups.len() == 1 {
        hex_text(groups[0] as nat)
    } else {
        hex_text(groups[0] as nat) + seq![':'] + groups_text(groups.drop_first())
    }
}

/// Whether the eight groups form an IPv4-mapped address
/// (`::ffff:a.b.c.d`), which is written in mixed notation.
pub open spec fn v4_mapped(groups: Seq<u16>) -> bool
    recommends
        groups.len() == 8,
{
    groups[0] == 0 && groups[1] == 0 && groups[2] == 0 && groups[3] == 0 && groups[4] == 0
        && groups[5] == 0xffff
}

/// The four IPv4 bytes carried by an IPv4-mapped address.
pub open spec fn v4_mapped_bytes(groups: Seq<u16>) -> Seq<u8>
    recommends
        groups.len() == 8,
{
    seq![
        (groups[6] >> 8) as u8,
        (groups[6] & 0xff) as u8,
        (groups[7] >> 8) as u8,
        (groups[7] & 0xff) as u8,
    ]
}

/// Standard text of an IPv6 address: the longest run of two or more
/// zero groups (leftmost on ties) collapses to `::`, groups are
/// lower-case hexadecimal without leading zeros, and an IPv4-mapped
/// address is written `::ffff:` followed by dotted decimal.
pub open spec fn ipv6_text(groups: Seq<u16>) -> Seq<char>
    recommends
        groups.len() == 8,
{
    if v4_mapped(groups) {
        seq![':', ':', 'f', 'f', 'f', 'f', ':'] + ipv4_text(v4_mapped_bytes(groups))
    } else {
        let start = best_run_start(groups);
        let run = zero_run_len(groups, start) as int;
        if run > 1 {
            groups_text(groups.subrange(0, start)) + seq![':', ':'] + groups_text(
                groups.subrange(start + run, groups.len() as int),
            )
        } else {
            groups_text(groups)
        }
    }
}

/// The textual form of a host: dotted decimal for IPv4, the lossily
/// decoded name for a domain, compressed hexadecimal for IPv6.
pub open spec fn host_text(h: HostModel) -> Seq<char> {
    match h {
        HostModel::V4(bytes) => ipv4_text(bytes),
        HostModel::Domain(bytes) => utf8_lossy_text(bytes),
        HostModel::V6(groups) => ipv6_text(groups),
    }
}

/// The destination string `host:port` used to dial the upstream
/// connection.
pub open spec fn dest_text(d: DestAddrModel) -> Seq<char> {
    host_text(d.host) + seq![':'] + dec_text(d.port as nat)
}

fn push_ipv4(s: &mut String, bytes: &[u8; 4])
    ensures
        final(s)@ == old(s)@ + ipv4_text(bytes@),
{
    proof {
        reveal_strlit(".");
    }
    crate::text::push_dec_u16(s, bytes[0] as u16);
    s.append(".");
    crate::text::push_dec_u16(s, bytes[1] as u16);
    s.append(".");
    crate::text::push_dec_u16(s, bytes[2] as u16);
    s.append(".");
    crate::text::push_dec_u16(s, bytes[3] as u16);
    proof {
        assert(final(s)@ =~= old(s)@ + ipv4_text(bytes@));
    }
}

fn zero_run_at(groups: &[u16; 8], i: usize) -> (r: usize)
    requires
        i <= 8,
    ensures
        r == zero_run_len(groups@, i as int),
        r <= 8 - i,
    decreases 8 - i,
{
    if i < 8 && groups[i] == 0 {
        1 + zero_run_at(groups, i + 1)
    } else {
        0
    }
}

fn best_run_from_exec(groups: &[u16; 8], i: usize) -> (r: usize)
    requires
        i < 8,
    ensures
        r as int == best_run_from(groups@, i as int),
        i <= r < 8,
    decreases 8 - i,
{
    if i + 1 >= 8 {
        i
    } else {
        let rest = best_run_from_exec(groups, i + 1);
        let here = zero_run_at(groups, i);
        let there = zero_run_at(groups, rest);
        if here >= there {
            i
        } else {
            rest
        }
    }
}

fn push_groups(s: &mut String, groups: &[u16; 8], lo: usize, hi: usize)
    requires
        lo <= hi <= 8,
    ensures
        final(s)@ == old(s)@ + groups_text(groups@.subrange(lo as int, hi as int)),
    decreases 8 - lo,
{
    proof {
        reveal_strlit(":");
    }
    let ghost chunk = groups@.subrange(lo as int, hi as int);
    if lo < hi {
        crate::text::push_hex_u16(s, groups[lo]);
        if lo + 1 < hi {
            s.append(":");
            push_groups(s, groups, lo + 1, hi);
            proof {
                assert(chunk.drop_first() =~= groups@.subrange(lo as int + 1, hi as int));
                assert(final(s)@ =~= old(s)@ + groups_text(chunk));
            }
        } else {
            proof {
                assert(final(s)@ =~= old(s)@ + groups_text(chunk));
            }
        }
    } else {
        proof {
            assert(final(s)@ =~= old(s)@ + groups_text(chunk));
        }
    }
}

fn push_ipv6(s: &mut String, groups: &[u16; 8])
    ensures
        final(s)@ == old(s)@ + ipv6_text(groups@),
{
    if groups[0] == 0 && groups[1] == 0 && groups[2] == 0 && groups[3] == 0 && groups[4] == 0
        && groups[5] == 0xffff {
        proof {
            reveal_strlit("::ffff:");
        }
        s.append("::ffff:");
        let mapped: [u8; 4] = [
            (groups[6] >> 8) as u8,
            (groups[6] & 0xff) as u8,
            (groups[7] >> 8) as u8,
            (groups[7] & 0xff) as u8,
        ];
        push_ipv4(s, &mapped);
        proof {
            assert(mapped@ =~= v4_mapped_bytes(groups@));
            assert(final(s)@ =~= old(s)@ + ipv6_text(groups@));
        }
    } else {
        let start = best_run_from_exec(groups, 0);
        let run = zero_run_at(groups, start);
        if run > 1 {
            proof {
                reveal_strlit("::");
            }
            push_groups(s, groups, 0, start);
            s.append("::");
            push_groups(s, groups, start + run, 8);
            proof {
                assert(final(s)@ =~= old(s)@ + ipv6_text(groups@));
            }
        } else {
            push_groups(s, groups, 0, 8);
            proof {
                assert(groups@.subrange(0, 8) =~= groups@);
                assert(final(s)@ =~= old(s)@ + ipv6_text(groups@));
            }
        }
    }
}

/// The destination string `host:port` of a parsed destination, exactly
/// as it is handed to the dialer.
pub fn dest_text_of(d: &DestAddr) -> (r: String)
    ensures
        r@ == dest_text(d@),
{
    proof {
        reveal_strlit(":");
    }
    let mut s = String::new();
    match &d.host {
        Host::V4(bytes) => push_ipv4(&mut s, bytes),
        Host::Domain(bytes) => {
            let decoded = utf8_lossy(bytes.as_slice());
            s.append(decoded.as_str());
        },
        Host::V6(groups) => push_ipv6(&mut s, groups),
    }
    s.append(":");
    crate::text::push_dec_u16(&mut s, d.port);
    proof {
        assert(s@ =~= dest_text(d@));
    }
    s
}

} // verus!

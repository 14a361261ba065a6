//! The header walker and the payload probe.
//!
//! The walker interprets a packet's byte range as an Ethernet header,
//! then an IPv4 header, then a fixed-length transport header, and computes
//! the payload offset. The probe performs two independently bounds-checked
//! eight-byte reads at that offset and surfaces the values through a log
//! sink. The whole walk either succeeds or fails with the single unit
//! error that covers both missing bytes and an unsupported protocol.

use vstd::prelude::*;

use crate::access::{ptr_at, read_u16_be, read_u8, read_u64_le, spec_u16_be_at, spec_u64_le_at};

verus! {

/// Byte length of an Ethernet header.
pub const ETH_HDR_LEN: usize = 14;

/// Byte length of an IPv4 header without options.
pub const IPV4_HDR_LEN: usize = 20;

/// Byte length of a TCP header without options.
pub const TCP_HDR_LEN: usize = 20;

/// Byte length of a UDP header.
pub const UDP_HDR_LEN: usize = 8;

/// Offset of the upper-layer protocol tag inside the Ethernet header.
pub const ETH_TAG_OFFSET: usize = 12;

/// Ethernet upper-layer tag for IPv4.
pub const ETHERTYPE_IPV4: u16 = 0x0800;

/// Offset of the transport protocol tag inside the IPv4 header.
pub const IPV4_PROTO_OFFSET: usize = 9;

/// IPv4 transport tag for TCP.
pub const IPPROTO_TCP: u8 = 6;

/// IPv4 transport tag for UDP.
pub const IPPROTO_UDP: u8 = 17;

/// The Ethernet upper-layer tag of the packet: the big-endian pair of
/// bytes at its fixed offset inside the Ethernet header.
pub open spec fn spec_eth_tag(pkt: Seq<u8>) -> u16
    recommends
        pkt.len() >= ETH_HDR_LEN,
{
    spec_u16_be_at(pkt, ETH_TAG_OFFSET as int)
}

/// The transport protocol tag of the packet: the byte at its fixed offset
/// inside the IPv4 header.
pub open spec fn spec_transport_proto(pkt: Seq<u8>) -> u8
    recommends
        pkt.len() >= ETH_HDR_LEN + IPV4_HDR_LEN,
{
    pkt[ETH_HDR_LEN + IPV4_PROTO_OFFSET]
}

/// The payload offset for a packet whose transport tag is TCP or UDP:
/// the end of the Ethernet, IPv4 and fixed transport headers.
pub open spec fn spec_payload_offset(pkt: Seq<u8>) -> int
    recommends
        pkt.len() >= ETH_HDR_LEN + IPV4_HDR_LEN,
        spec_transport_proto(pkt) == IPPROTO_TCP || spec_transport_proto(pkt) == IPPROTO_UDP,
{
    if spec_transport_proto(pkt) == IPPROTO_TCP {
        ETH_HDR_LEN + IPV4_HDR_LEN + TCP_HDR_LEN
    } else {
        ETH_HDR_LEN + IPV4_HDR_LEN + UDP_HDR_LEN
    }
}

/// Whether the payload probe at `off` succeeds: both eight-byte spans must
/// lie inside the byte range.
pub open spec fn spec_probe_ok(pkt: Seq<u8>, off: int) -> bool {
    off + 16 <= pkt.len()
}

/// What the payload probe at `off` logs: each eight-byte value whose span
/// lies inside the byte range, first the one at `off`, then the one at
/// `off + 8`; the second is logged only together with the first.
pub open spec fn spec_probe_log(pkt: Seq<u8>, off: int) -> Seq<u64> {
    if off + 8 > pkt.len() {
        Seq::empty()
    } else if off + 16 > pkt.len() {
        seq![spec_u64_le_at(pkt, off)]
    } else {
        seq![spec_u64_le_at(pkt, off), spec_u64_le_at(pkt, off + 8)]
    }
}

/// Whether the whole walk succeeds on the byte range: a too-short Ethernet
/// header fails; a non-IPv4 tag succeeds at once; a missing IPv4 header or
/// a transport tag other than TCP/UDP fails; otherwise the probe decides.
pub open spec fn spec_walk_ok(pkt: Seq<u8>) -> bool {
    if pkt.len() < ETH_HDR_LEN {
        false
    } else if spec_eth_tag(pkt) != ETHERTYPE_IPV4 {
        true
    } else if pkt.len() < ETH_HDR_LEN + IPV4_HDR_LEN {
        false
    } else if spec_transport_proto(pkt) == IPPROTO_TCP || spec_transport_proto(pkt)
        == IPPROTO_UDP {
        spec_probe_ok(pkt, spec_payload_offset(pkt))
    } else {
        false
    }
}

/// What the whole walk logs on the byte range: nothing, unless the headers
/// parse down to a TCP or UDP payload offset, where the probe's log stands.
pub open spec fn spec_walk_log(pkt: Seq<u8>) -> Seq<u64> {
    if pkt.len() < ETH_HDR_LEN {
        Seq::empty()
    } else if spec_eth_tag(pkt) != ETHERTYPE_IPV4 {
        Seq::empty()
    } else if pkt.len() < ETH_HDR_LEN + IPV4_HDR_LEN {
        Seq::empty()
    } else if spec_transport_proto(pkt) == IPPROTO_TCP || spec_transport_proto(pkt)
        == IPPROTO_UDP {
        spec_probe_log(pkt, spec_payload_offset(pkt))
    } else {
        Seq::empty()
    }
}

/// The payload probe: two independent bounds-checked eight-byte reads at
/// `offset` and `offset + 8`, each value appended to the log sink as soon
/// as it is read. The first check does not stand in for the second: the
/// second read requalifies the full sixteen-byte span against the end of
/// the byte range before it is attempted.
///
/// This probe is a separate function on purpose, so that the safety of its
/// reads is established across a call boundary, from its own precondition
/// discipline, and not by inlining it into the walker.
pub fn fetch_foo(pkt: &[u8], offset: usize, log: &mut Vec<u64>) -> (r: Result<(), ()>)
    ensures
        r is Ok <==> spec_probe_ok(pkt@, offset as int),
        final(log)@ == old(log)@ + spec_probe_log(pkt@, offset as int),
{
    let loc = match ptr_at(pkt, offset, 8) {
        Ok(loc) => loc,
        Err(e) => {
            proof {
                assert(old(log)@ + spec_probe_log(pkt@, offset as int) =~= old(log)@);
            }
            return Err(e);
        },
    };
    let foo = read_u64_le(pkt, loc);
    log.push(foo);

    let loc = match ptr_at(pkt, offset, 16) {
        Ok(loc) => loc,
        Err(e) => {
            proof {
                assert(old(log)@ + spec_probe_log(pkt@, offset as int) =~= log@);
            }
            return Err(e);
        },
    };
    // The range's length is a machine word, so `loc + 8` cannot wrap.
    let n: usize = pkt.len();
    assert(loc + 16 <= n);
    let foo = read_u64_le(pkt, loc + 8);
    log.push(foo);

    proof {
        assert(old(log)@ + spec_probe_log(pkt@, offset as int) =~= log@);
    }
    Ok(())
}

/// The header walker: parse the Ethernet header, let non-IPv4 traffic
/// through unexamined, parse the IPv4 header, compute the payload offset
/// for TCP or UDP, reject any other transport tag, and run the payload
/// probe at that offset. Every bounds failure along the way aborts the
/// walk with the same unit error, and nothing is logged past the failure.
pub fn try_verifier_err(pkt: &[u8], log: &mut Vec<u64>) -> (r: Result<(), ()>)
    ensures
        r is Ok <==> spec_walk_ok(pkt@),
        final(log)@ == old(log)@ + spec_walk_log(pkt@),
{
    let eth_loc = match ptr_at(pkt, 0, ETH_HDR_LEN) {
        Ok(loc) => loc,
        Err(e) => {
            proof {
                assert(old(log)@ + spec_walk_log(pkt@) =~= old(log)@);
            }
            return Err(e);
        },
    };
    let tag = read_u16_be(pkt, eth_loc + ETH_TAG_OFFSET);
    if tag != ETHERTYPE_IPV4 {
        proof {
            assert(old(log)@ + spec_walk_log(pkt@) =~= old(log)@);
        }
        return Ok(());
    }

    let ip_loc = match ptr_at(pkt, ETH_HDR_LEN, IPV4_HDR_LEN) {
        Ok(loc) => loc,
        Err(e) => {
            proof {
                assert(old(log)@ + spec_walk_log(pkt@) =~= old(log)@);
            }
            return Err(e);
        },
    };
    let proto = read_u8(pkt, ip_loc + IPV4_PROTO_OFFSET);
    let offset: usize = if proto == IPPROTO_TCP {
        ETH_HDR_LEN + IPV4_HDR_LEN + TCP_HDR_LEN
    } else if proto == IPPROTO_UDP {
        ETH_HDR_LEN + IPV4_HDR_LEN + UDP_HDR_LEN
    } else {
        proof {
            assert(old(log)@ + spec_walk_log(pkt@) =~= old(log)@);
        }
        return Err(());
    };

    fetch_foo(pkt, offset, log)
}

} // verus!

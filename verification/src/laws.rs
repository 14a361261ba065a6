//! The laws of the walk, stated over the spec model and proved once for
//! all byte ranges. Each lemma fixes what the walker, the probe and the
//! two verdict adapters together promise for a whole class of packets.

use vstd::prelude::*;

use crate::access::spec_u64_le_at;
use crate::walk::{
    spec_eth_tag, spec_transport_proto, spec_walk_log, spec_walk_ok, ETHERTYPE_IPV4, ETH_HDR_LEN,
    IPPROTO_TCP, IPPROTO_UDP, IPV4_HDR_LEN, TCP_HDR_LEN,
};
use crate::verdict::{
    spec_tc_verdict, spec_xdp_verdict, TC_ACT_PIPE, TC_ACT_SHOT, XDP_ABORTED, XDP_PASS,
};

verus! {

/// Any byte range shorter than the Ethernet header fails the walk with
/// the bounds error: nothing is logged and both hooks drop the packet.
pub proof fn lemma_short_range_drops(pkt: Seq<u8>)
    requires
        pkt.len() < ETH_HDR_LEN,
    ensures
        !spec_walk_ok(pkt),
        spec_walk_log(pkt) == Seq::<u64>::empty(),
        spec_tc_verdict(pkt) == TC_ACT_SHOT,
        spec_xdp_verdict(pkt) == XDP_ABORTED,
{
}

/// Any packet whose Ethernet tag is not IPv4 passes through unexamined:
/// the walk succeeds at once, nothing further is read or logged, and both
/// hooks let the packet continue.
pub proof fn lemma_non_ipv4_passes(pkt: Seq<u8>)
    requires
        pkt.len() >= ETH_HDR_LEN,
        spec_eth_tag(pkt) != ETHERTYPE_IPV4,
    ensures
        spec_walk_ok(pkt),
        spec_walk_log(pkt) == Seq::<u64>::empty(),
        spec_tc_verdict(pkt) == TC_ACT_PIPE,
        spec_xdp_verdict(pkt) == XDP_PASS,
{
}

/// Any IPv4 packet whose transport tag is neither TCP nor UDP is rejected:
/// the walk fails, nothing is logged, and both hooks drop the packet.
pub proof fn lemma_unsupported_transport_drops(pkt: Seq<u8>)
    requires
        pkt.len() >= ETH_HDR_LEN + IPV4_HDR_LEN,
        spec_eth_tag(pkt) == ETHERTYPE_IPV4,
        spec_transport_proto(pkt) != IPPROTO_TCP,
        spec_transport_proto(pkt) != IPPROTO_UDP,
    ensures
        !spec_walk_ok(pkt),
        spec_walk_log(pkt) == Seq::<u64>::empty(),
        spec_tc_verdict(pkt) == TC_ACT_SHOT,
        spec_xdp_verdict(pkt) == XDP_ABORTED,
{
}

/// Any IPv4/TCP packet with at least sixteen bytes of payload past the
/// transport header succeeds: both eight-byte payload values are logged,
/// exactly as the bytes stand in the buffer, and both hooks let the packet
/// continue. The final clause pins the values byte for byte: serialising
/// each logged value back to little-endian bytes gives precisely the
/// eight-byte span it was read from.
pub proof fn lemma_tcp_payload_logged(pkt: Seq<u8>)
    requires
        spec_eth_tag(pkt) == ETHERTYPE_IPV4,
        spec_transport_proto(pkt) == IPPROTO_TCP,
        pkt.len() >= ETH_HDR_LEN + IPV4_HDR_LEN + TCP_HDR_LEN + 16,
    ensures
        spec_walk_ok(pkt),
        spec_walk_log(pkt) == seq![
            spec_u64_le_at(pkt, (ETH_HDR_LEN + IPV4_HDR_LEN + TCP_HDR_LEN) as int),
            spec_u64_le_at(pkt, (ETH_HDR_LEN + IPV4_HDR_LEN + TCP_HDR_LEN + 8) as int),
        ],
        spec_tc_verdict(pkt) == TC_ACT_PIPE,
        spec_xdp_verdict(pkt) == XDP_PASS,
        forall|k: int|
            0 <= k < 2 ==> vstd::bytes::spec_u64_to_le_bytes(#[trigger] spec_walk_log(pkt)[k])
                == pkt.subrange(
                ETH_HDR_LEN + IPV4_HDR_LEN + TCP_HDR_LEN + 8 * k,
                ETH_HDR_LEN + IPV4_HDR_LEN + TCP_HDR_LEN + 8 * k + 8,
            ),
{
    vstd::bytes::lemma_auto_spec_u64_to_from_le_bytes();
}

/// An IPv4/TCP packet with at least eight but fewer than sixteen bytes of
/// payload past the transport header shows the two probe reads are checked
/// independently: the first value is read and logged, the second read
/// fails its own bounds check, and the walk as a whole fails, so both
/// hooks drop the packet.
pub proof fn lemma_tcp_short_payload_drops(pkt: Seq<u8>)
    requires
        spec_eth_tag(pkt) == ETHERTYPE_IPV4,
        spec_transport_proto(pkt) == IPPROTO_TCP,
        pkt.len() >= ETH_HDR_LEN + IPV4_HDR_LEN + TCP_HDR_LEN + 8,
        pkt.len() < ETH_HDR_LEN + IPV4_HDR_LEN + TCP_HDR_LEN + 16,
    ensures
        !spec_walk_ok(pkt),
        spec_walk_log(pkt) == seq![
            spec_u64_le_at(pkt, (ETH_HDR_LEN + IPV4_HDR_LEN + TCP_HDR_LEN) as int),
        ],
        spec_tc_verdict(pkt) == TC_ACT_SHOT,
        spec_xdp_verdict(pkt) == XDP_ABORTED,
{
}

/// The walk is a pure function of the byte range: walking the same bytes
/// twice gives the same outcome, the same logged values and the same
/// verdict at either hook, with no state carried between invocations.
pub proof fn lemma_walk_idempotent(pkt1: Seq<u8>, pkt2: Seq<u8>)
    requires
        pkt1 == pkt2,
    ensures
        spec_walk_ok(pkt1) == spec_walk_ok(pkt2),
        spec_walk_log(pkt1) == spec_walk_log(pkt2),
        spec_tc_verdict(pkt1) == spec_tc_verdict(pkt2),
        spec_xdp_verdict(pkt1) == spec_xdp_verdict(pkt2),
{
}

} // verus!

//! Transport-layer dispatch for capture summaries.

use vstd::prelude::*;

use crate::icmp::parse_icmp_simple;
use crate::port::{protocol_to_str, spec_protocol_name};
use crate::tcp::parse_tcp_simple;
use crate::types::{
    PacketSummary, ICMP_HDR_LEN, PROTO_TYPE_ICMP, PROTO_TYPE_TCP, PROTO_TYPE_UDP, TCP_HDR_LEN,
    UDP_HDR_LEN,
};
use crate::udp::parse_udp_simple;

verus! {

/// Labels a summary row with the transport protocol's name and dispatches
/// to that protocol's summary decoder, returning the destination port and
/// the transport header length.  Unknown protocols yield zeroes.
pub fn preparse_layer4(proto_num: usize, l4: &[u8], packet: &mut PacketSummary) -> (r: (
    u16,
    usize,
))
    ensures
        final(packet).protocol@ == (match spec_protocol_name(proto_num) {
            Some(s) => s,
            Option::<Seq<char>>::None => old(packet).protocol@,
        }),
        proto_num != PROTO_TYPE_TCP && proto_num != PROTO_TYPE_UDP && proto_num != PROTO_TYPE_ICMP
            ==> r == (0u16, 0usize),
        proto_num == PROTO_TYPE_TCP && l4@.len() >= 4 ==> r.0 == crate::types::be16(
            l4@[2],
            l4@[3],
        ) && r.1 == TCP_HDR_LEN && final(packet).src_port == crate::types::be16(l4@[0], l4@[1])
            && final(packet).dst_port == crate::types::be16(l4@[2], l4@[3]),
        proto_num == PROTO_TYPE_UDP && l4@.len() >= 4 ==> r.0 == crate::types::be16(
            l4@[2],
            l4@[3],
        ) && r.1 == UDP_HDR_LEN && final(packet).src_port == crate::types::be16(l4@[0], l4@[1])
            && final(packet).dst_port == crate::types::be16(l4@[2], l4@[3]),
        proto_num == PROTO_TYPE_ICMP ==> r.0 == 0 && r.1 == ICMP_HDR_LEN,
        final(packet).id == old(packet).id,
        final(packet).ts == old(packet).ts,
        final(packet).src_ip == old(packet).src_ip,
        final(packet).dst_ip == old(packet).dst_ip,
        final(packet).length == old(packet).length,
{
    if let Some(v) = protocol_to_str(proto_num) {
        packet.protocol = v;
    }
    if proto_num == PROTO_TYPE_TCP {
        let p = parse_tcp_simple(l4, packet);
        (p, TCP_HDR_LEN)
    } else if proto_num == PROTO_TYPE_UDP {
        let p = parse_udp_simple(l4, packet);
        (p, UDP_HDR_LEN)
    } else if proto_num == PROTO_TYPE_ICMP {
        let p = parse_icmp_simple(l4, packet);
        (p, ICMP_HDR_LEN)
    } else {
        (0, 0)
    }
}

} // verus!

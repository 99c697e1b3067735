//! UDP header decoding: ports for the summary form, every field for the
//! detailed form.

use vstd::prelude::*;

use crate::port::{port_to_str, spec_port_name};
use crate::types::{be16, read_be16, PacketSummary, UdpInfo};

verus! {

/// The source and destination ports of a UDP header.
pub fn get_udp_port(udp: &[u8]) -> (r: (u16, u16))
    requires
        udp@.len() >= 4,
    ensures
        r.0 == be16(udp@[0], udp@[1]),
        r.1 == be16(udp@[2], udp@[3]),
{
    (read_be16(udp[0], udp[1]), read_be16(udp[2], udp[3]))
}

/// Fills a summary row with a UDP header's ports and returns the
/// destination port.  Headers shorter than four bytes yield zero and
/// leave the row unchanged.
pub fn parse_udp_simple(udp: &[u8], packet: &mut PacketSummary) -> (r: u16)
    ensures
        udp@.len() < 4 ==> r == 0 && *final(packet) == *old(packet),
        udp@.len() >= 4 ==> r == be16(udp@[2], udp@[3]) && *final(packet) == (PacketSummary {
            src_port: be16(udp@[0], udp@[1]),
            dst_port: be16(udp@[2], udp@[3]),
            ..*old(packet)
        }),
{
    if udp.len() < 4 {
        return 0;
    }
    let (src_port, dst_port) = get_udp_port(udp);
    packet.src_port = src_port;
    packet.dst_port = dst_port;
    dst_port
}

/// Decodes a full UDP header into a detail record and returns the
/// destination port.  Headers shorter than eight bytes yield zero.
pub fn parse_single_udp(udp_buf: &[u8], udp: &mut UdpInfo) -> (r: u16)
    ensures
        udp_buf@.len() < 8 ==> r == 0,
        udp_buf@.len() >= 8 ==> {
            &&& r == be16(udp_buf@[2], udp_buf@[3])
            &&& final(udp).src_port == be16(udp_buf@[0], udp_buf@[1])
            &&& final(udp).dst_port == be16(udp_buf@[2], udp_buf@[3])
            &&& final(udp).length == be16(udp_buf@[4], udp_buf@[5])
            &&& final(udp).checksum == be16(udp_buf@[6], udp_buf@[7])
            &&& final(udp).str_src_port@ == (match spec_port_name(be16(udp_buf@[0], udp_buf@[1])) {
                Some(s) => s,
                Option::<Seq<char>>::None => old(udp).str_src_port@,
            })
            &&& final(udp).str_dst_port@ == (match spec_port_name(be16(udp_buf@[2], udp_buf@[3])) {
                Some(s) => s,
                Option::<Seq<char>>::None => old(udp).str_dst_port@,
            })
            &&& final(udp).raw@ == old(udp).raw@ + udp_buf@.subrange(0, 8)
        },
{
    if udp_buf.len() < 8 {
        return 0;
    }
    let (src_port, dst_port) = get_udp_port(udp_buf);
    udp.src_port = src_port;
    udp.dst_port = dst_port;
    if let Some(v) = port_to_str(src_port) {
        udp.str_src_port = v;
    }
    if let Some(v) = port_to_str(dst_port) {
        udp.str_dst_port = v;
    }
    udp.length = read_be16(udp_buf[4], udp_buf[5]);
    udp.checksum = read_be16(udp_buf[6], udp_buf[7]);
    let mut raw_part = vstd::slice::slice_to_vec(&udp_buf[0..8]);
    udp.raw.append(&mut raw_part);
    dst_port
}

} // verus!

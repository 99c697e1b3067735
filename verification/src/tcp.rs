//! TCP header decoding: ports for the summary form, every fixed field for
//! the detailed form.

use vstd::prelude::*;

use crate::port::{port_to_str, spec_port_name};
use crate::types::{be16, be32, read_be16, read_be32, PacketSummary, TcpInfo};

verus! {

/// Fills a summary row with a TCP header's ports and returns the
/// destination port.  Headers shorter than four bytes yield zero and
/// leave the row unchanged.
pub fn parse_tcp_simple(tcp: &[u8], packet: &mut PacketSummary) -> (r: u16)
    ensures
        tcp@.len() < 4 ==> r == 0 && *final(packet) == *old(packet),
        tcp@.len() >= 4 ==> r == be16(tcp@[2], tcp@[3]) && *final(packet) == (PacketSummary {
            src_port: be16(tcp@[0], tcp@[1]),
            dst_port: be16(tcp@[2], tcp@[3]),
            ..*old(packet)
        }),
{
    if tcp.len() < 4 {
        return 0;
    }
    let src_port = read_be16(tcp[0], tcp[1]);
    let dst_port = read_be16(tcp[2], tcp[3]);
    packet.src_port = src_port;
    packet.dst_port = dst_port;
    dst_port
}

/// Decodes a full TCP header into a detail record and returns the
/// destination port.  Headers shorter than twenty bytes yield zero.
pub fn parse_single_tcp(tcp_buf: &[u8], tcp: &mut TcpInfo) -> (r: u16)
    ensures
        tcp_buf@.len() < 20 ==> r == 0,
        tcp_buf@.len() >= 20 ==> {
            &&& r == be16(tcp_buf@[2], tcp_buf@[3])
            &&& final(tcp).src_port == be16(tcp_buf@[0], tcp_buf@[1])
            &&& final(tcp).dst_port == be16(tcp_buf@[2], tcp_buf@[3])
            &&& final(tcp).seq == be32(tcp_buf@[4], tcp_buf@[5], tcp_buf@[6], tcp_buf@[7])
            &&& final(tcp).ack == be32(tcp_buf@[8], tcp_buf@[9], tcp_buf@[10], tcp_buf@[11])
            &&& final(tcp).header_sz == ((tcp_buf@[12] >> 4) * 4) as u8
            &&& final(tcp).flags == tcp_buf@[13]
            &&& final(tcp).window == be16(tcp_buf@[14], tcp_buf@[15])
            &&& final(tcp).checksum == be16(tcp_buf@[16], tcp_buf@[17])
            &&& final(tcp).urgent == 0
            &&& final(tcp).src_port_str@ == (match spec_port_name(
                be16(tcp_buf@[0], tcp_buf@[1]),
            ) {
                Some(s) => s,
                Option::<Seq<char>>::None => old(tcp).src_port_str@,
            })
            &&& final(tcp).dst_port_str@ == (match spec_port_name(
                be16(tcp_buf@[2], tcp_buf@[3]),
            ) {
                Some(s) => s,
                Option::<Seq<char>>::None => old(tcp).dst_port_str@,
            })
            &&& final(tcp).raw@ == old(tcp).raw@ + tcp_buf@.subrange(0, 20)
        },
{
    if tcp_buf.len() < 20 {
        return 0;
    }
    let src_port = read_be16(tcp_buf[0], tcp_buf[1]);
    let dst_port = read_be16(tcp_buf[2], tcp_buf[3]);
    tcp.src_port = src_port;
    tcp.dst_port = dst_port;
    if let Some(v) = port_to_str(src_port) {
        tcp.src_port_str = v;
    }
    if let Some(v) = port_to_str(dst_port) {
        tcp.dst_port_str = v;
    }
    tcp.seq = read_be32(tcp_buf[4], tcp_buf[5], tcp_buf[6], tcp_buf[7]);
    tcp.ack = read_be32(tcp_buf[8], tcp_buf[9], tcp_buf[10], tcp_buf[11]);
    let b12 = tcp_buf[12];
    proof {
        assert(b12 >> 4 <= 15) by (bit_vector);
    }
    tcp.header_sz = (b12 >> 4) * 4;
    tcp.flags = tcp_buf[13];
    tcp.window = read_be16(tcp_buf[14], tcp_buf[15]);
    tcp.checksum = read_be16(tcp_buf[16], tcp_buf[17]);
    tcp.urgent = 0;
    let mut raw_part = vstd::slice::slice_to_vec(&tcp_buf[0..20]);
    tcp.raw.append(&mut raw_part);
    dst_port
}

} // verus!

//! IPv4 header decoding: the summary form (protocol name, addresses) and
//! the detailed form (every header field).

use vstd::prelude::*;

use crate::addr::{ipv4_text, spec_ipv4_text};
use crate::port::{protocol_to_str, spec_protocol_name};
use crate::types::{be16, be32, read_be16, read_be32, IP_HDR_LEN, PacketSummary, IpInfo};

verus! {

/// The source and destination addresses of an IPv4 header, as big-endian
/// 32-bit values.
pub fn get_ip_addr(ip_hdr: &[u8]) -> (r: (u32, u32))
    requires
        ip_hdr@.len() >= 20,
    ensures
        r.0 == be32(ip_hdr@[12], ip_hdr@[13], ip_hdr@[14], ip_hdr@[15]),
        r.1 == be32(ip_hdr@[16], ip_hdr@[17], ip_hdr@[18], ip_hdr@[19]),
{
    (
        read_be32(ip_hdr[12], ip_hdr[13], ip_hdr[14], ip_hdr[15]),
        read_be32(ip_hdr[16], ip_hdr[17], ip_hdr[18], ip_hdr[19]),
    )
}

/// The transport protocol number of an IPv4 header.
pub fn get_next_proto(ip_hdr: &[u8]) -> (r: usize)
    requires
        ip_hdr@.len() >= 10,
    ensures
        r == ip_hdr@[9] as usize,
{
    ip_hdr[9] as usize
}

/// Fills a summary row with an IPv4 header's protocol name and addresses
/// and returns the transport protocol number.  Frames shorter than an
/// IPv4 header yield zero and leave the row unchanged.
pub fn parse_ipv4_simple(ip_hdr: &[u8], packet: &mut PacketSummary) -> (r: usize)
    ensures
        ip_hdr@.len() < 20 ==> r == 0 && *final(packet) == *old(packet),
        ip_hdr@.len() >= 20 ==> {
            &&& r == ip_hdr@[9] as usize
            &&& final(packet).protocol@ == old(packet).protocol@ + (match spec_protocol_name(
                ip_hdr@[9] as usize,
            ) {
                Some(s) => s,
                Option::<Seq<char>>::None => Seq::<char>::empty(),
            })
            &&& final(packet).src_ip@ == old(packet).src_ip@ + spec_ipv4_text(
                be32(ip_hdr@[12], ip_hdr@[13], ip_hdr@[14], ip_hdr@[15]),
            )
            &&& final(packet).dst_ip@ == old(packet).dst_ip@ + spec_ipv4_text(
                be32(ip_hdr@[16], ip_hdr@[17], ip_hdr@[18], ip_hdr@[19]),
            )
            &&& final(packet).id == old(packet).id
            &&& final(packet).ts == old(packet).ts
            &&& final(packet).src_port == old(packet).src_port
            &&& final(packet).dst_port == old(packet).dst_port
            &&& final(packet).length == old(packet).length
            &&& final(packet).description == old(packet).description
        },
{
    if ip_hdr.len() < 20 {
        return 0;
    }
    let next_hdr = ip_hdr[9] as usize;
    if let Some(v) = protocol_to_str(next_hdr) {
        packet.protocol.append(v.as_str());
    } else {
        proof {
            assert(old(packet).protocol@ + Seq::<char>::empty() =~= old(packet).protocol@);
        }
    }
    let (src, dst) = get_ip_addr(ip_hdr);
    packet.src_ip.append(ipv4_text(src).as_str());
    packet.dst_ip.append(ipv4_text(dst).as_str());
    next_hdr
}

/// Decodes a full IPv4 header into a detail record and returns the
/// transport protocol number.  A header whose length field is not the
/// optionless twenty bytes, or a truncated one, yields zero.
pub fn parse_ipv4(ip_hdr: &[u8], ip: &mut IpInfo) -> (r: usize)
    ensures
        ip_hdr@.len() < 20 || (ip_hdr@[0] & 0x0f) as usize * 4 != IP_HDR_LEN ==> r == 0,
        ip_hdr@.len() >= 20 && (ip_hdr@[0] & 0x0f) as usize * 4 == IP_HDR_LEN ==> {
            &&& r == ip_hdr@[9] as usize
            &&& final(ip).version == (ip_hdr@[0] & 0xf0) >> 4
            &&& final(ip).ihl == 20
            &&& final(ip).dscp == (ip_hdr@[1] & 0xfc) >> 2
            &&& final(ip).ecn == ip_hdr@[1] & 0x03
            &&& final(ip).total_length == be16(ip_hdr@[2], ip_hdr@[3])
            &&& final(ip).id == be16(ip_hdr@[4], ip_hdr@[5])
            &&& final(ip).ttl == ip_hdr@[8]
            &&& final(ip).protocol == ip_hdr@[9]
            &&& final(ip).checksum == be16(ip_hdr@[10], ip_hdr@[11])
            &&& final(ip).src_addr@ == old(ip).src_addr@ + spec_ipv4_text(
                be32(ip_hdr@[12], ip_hdr@[13], ip_hdr@[14], ip_hdr@[15]),
            )
            &&& final(ip).dst_addr@ == old(ip).dst_addr@ + spec_ipv4_text(
                be32(ip_hdr@[16], ip_hdr@[17], ip_hdr@[18], ip_hdr@[19]),
            )
            &&& final(ip).next@ == old(ip).next@ + (match spec_protocol_name(
                ip_hdr@[9] as usize,
            ) {
                Some(s) => s,
                Option::<Seq<char>>::None => Seq::<char>::empty(),
            })
            &&& final(ip).raw@ == old(ip).raw@ + ip_hdr@.subrange(0, 20)
        },
{
    if ip_hdr.len() < 20 {
        return 0;
    }
    let version_ihl = ip_hdr[0];
    let version = (version_ihl & 0xf0) >> 4;
    let ihl = (version_ihl & 0x0f) as usize * 4;
    if ihl != IP_HDR_LEN {
        return 0;
    }
    let mut raw_part = vstd::slice::slice_to_vec(&ip_hdr[0..20]);
    ip.raw.append(&mut raw_part);
    let service = ip_hdr[1];
    ip.version = version;
    ip.ihl = 20;
    ip.dscp = (service & 0xfc) >> 2;
    ip.ecn = service & 0x03;
    ip.total_length = read_be16(ip_hdr[2], ip_hdr[3]);
    ip.id = read_be16(ip_hdr[4], ip_hdr[5]);
    let frag = read_be16(ip_hdr[6], ip_hdr[7]);
    let frag_flag = ((frag & 0x40) >> 5) as u8;
    ip.flags = frag_flag;
    ip.fragment_offset = if frag_flag == 0x02 {
        frag & 0x1f
    } else {
        0
    };
    ip.ttl = ip_hdr[8];
    let next_hdr = ip_hdr[9] as usize;
    ip.protocol = ip_hdr[9];
    ip.checksum = read_be16(ip_hdr[10], ip_hdr[11]);
    let (src, dst) = get_ip_addr(ip_hdr);
    ip.src_addr.append(ipv4_text(src).as_str());
    ip.dst_addr.append(ipv4_text(dst).as_str());
    if let Some(v) = protocol_to_str(next_hdr) {
        ip.next.append(v.as_str());
    } else {
        proof {
            assert(old(ip).next@ + Seq::<char>::empty() =~= old(ip).next@);
        }
    }
    next_hdr
}

} // verus!

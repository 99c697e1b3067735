//! IPv6 header decoding: the summary form (protocol name, addresses) and
//! the detailed form, with a walker that skips extension headers.

use vstd::prelude::*;

use crate::addr::{ipv6_text, spec_ipv6_text};
use crate::port::{protocol_to_str, spec_protocol_name, spec_v6_ext_hdr_name, v6_ext_hdr_to_str};
use crate::types::{be16, be32, read_be16, read_be32, Ip6Info, PacketSummary};

verus! {

/// The transport protocol at the end of a chain of extension headers:
/// starting from `next` at `off`, each recognized extension header is
/// skipped over its declared length until an unrecognized (upper-layer)
/// code is reached; a truncated chain yields the code reached so far.
pub open spec fn spec_v6_ext_walk(next: usize, data: Seq<u8>, off: int) -> usize
    decreases data.len() - off,
{
    if spec_v6_ext_hdr_name(next) is None {
        next
    } else if off < 0 || off + 2 > data.len() {
        next
    } else {
        let total = (data[off + 1] as int + 1) * 8;
        if off + total >= data.len() {
            next
        } else {
            spec_v6_ext_walk(data[off + total] as usize, data, off + total)
        }
    }
}

/// Walks the chain of IPv6 extension headers and returns the upper-layer
/// protocol code it ends at.
pub fn parse_ipv6_ext(next_hdr: usize, packet: &[u8], off: usize) -> (r: usize)
    requires
        off <= packet@.len(),
    ensures
        r == spec_v6_ext_walk(next_hdr, packet@, off as int),
    decreases packet@.len() - off,
{
    match v6_ext_hdr_to_str(next_hdr) {
        Option::<String>::None => next_hdr,
        Some(_) => {
            if packet.len() - off < 2 {
                return next_hdr;
            }
            let hdr_len = packet[off + 1] as usize;
            let total = (hdr_len + 1) * 8;
            if total >= packet.len() - off {
                return next_hdr;
            }
            parse_ipv6_ext(packet[off + total] as usize, packet, off + total)
        },
    }
}

/// Fills a summary row with an IPv6 header's protocol name and addresses
/// and returns the transport protocol number.  Frames shorter than an
/// IPv6 header yield zero and leave the row unchanged.
pub fn parse_ipv6_simple(ip_hdr: &[u8], packet: &mut PacketSummary) -> (r: usize)
    ensures
        ip_hdr@.len() < 40 ==> r == 0 && *final(packet) == *old(packet),
        ip_hdr@.len() >= 40 ==> {
            &&& r == ip_hdr@[6] as usize
            &&& final(packet).protocol@ == old(packet).protocol@ + (match spec_protocol_name(
                ip_hdr@[6] as usize,
            ) {
                Some(s) => s,
                Option::<Seq<char>>::None => Seq::<char>::empty(),
            })
            &&& final(packet).src_ip@ == old(packet).src_ip@ + spec_ipv6_text(
                ip_hdr@.subrange(8, 24),
            )
            &&& final(packet).dst_ip@ == old(packet).dst_ip@ + spec_ipv6_text(
                ip_hdr@.subrange(24, 40),
            )
            &&& final(packet).id == old(packet).id
            &&& final(packet).ts == old(packet).ts
            &&& final(packet).src_port == old(packet).src_port
            &&& final(packet).dst_port == old(packet).dst_port
            &&& final(packet).length == old(packet).length
            &&& final(packet).description == old(packet).description
        },
{
    if ip_hdr.len() < 40 {
        return 0;
    }
    let next_hdr = ip_hdr[6] as usize;
    if let Some(v) = protocol_to_str(next_hdr) {
        packet.protocol.append(v.as_str());
    } else {
        proof {
            assert(old(packet).protocol@ + Seq::<char>::empty() =~= old(packet).protocol@);
        }
    }
    packet.src_ip.append(ipv6_text(&ip_hdr[8..24]).as_str());
    packet.dst_ip.append(ipv6_text(&ip_hdr[24..40]).as_str());
    next_hdr
}

/// Decodes a full IPv6 header into a detail record and returns the
/// transport protocol number.  Frames shorter than an IPv6 header yield
/// zero.
pub fn parse_ipv6(ip_hdr: &[u8], ip6: &mut Ip6Info) -> (r: usize)
    ensures
        ip_hdr@.len() < 40 ==> r == 0,
        ip_hdr@.len() >= 40 ==> {
            &&& r == ip_hdr@[6] as usize
            &&& final(ip6).version == (ip_hdr@[0] & 0xf0) >> 4
            &&& final(ip6).fl == be32(ip_hdr@[0], ip_hdr@[1], ip_hdr@[2], ip_hdr@[3]) & 0xfffff
            &&& final(ip6).pl == be16(ip_hdr@[4], ip_hdr@[5])
            &&& final(ip6).next == ip_hdr@[6]
            &&& final(ip6).hop == ip_hdr@[7]
            &&& final(ip6).src_addr@ == old(ip6).src_addr@ + spec_ipv6_text(
                ip_hdr@.subrange(8, 24),
            )
            &&& final(ip6).dst_addr@ == old(ip6).dst_addr@ + spec_ipv6_text(
                ip_hdr@.subrange(24, 40),
            )
            &&& final(ip6).raw@ == old(ip6).raw@ + ip_hdr@.subrange(0, 40)
        },
{
    if ip_hdr.len() < 40 {
        return 0;
    }
    let head = read_be32(ip_hdr[0], ip_hdr[1], ip_hdr[2], ip_hdr[3]);
    ip6.version = (ip_hdr[0] & 0xf0) >> 4;
    ip6.tc = ((ip_hdr[0] & 0x0f) << 4) | ((ip_hdr[1] & 0xf0) >> 4);
    ip6.fl = head & 0xfffff;
    ip6.pl = read_be16(ip_hdr[4], ip_hdr[5]);
    ip6.next = ip_hdr[6];
    ip6.hop = ip_hdr[7];
    ip6.src_addr.append(ipv6_text(&ip_hdr[8..24]).as_str());
    ip6.dst_addr.append(ipv6_text(&ip_hdr[24..40]).as_str());
    let mut raw_part = vstd::slice::slice_to_vec(&ip_hdr[0..40]);
    ip6.raw.append(&mut raw_part);
    ip_hdr[6] as usize
}

} // verus!

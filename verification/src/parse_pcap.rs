//! Per-frame decoding drivers: one frame's bytes to a summary row or to a
//! full layer-by-layer detail record.  Reading frames out of a capture
//! file is the caller's business; these functions take the bytes.

use vstd::prelude::*;

use crate::gtp::{parse_gtpc, parse_gtpc_detail, spec_gtp_header, spec_head_ok, spec_gtp_hdr_len};
use crate::gtp_ie::{parse_all_ies, spec_ie_frames, spec_ies_match_hard};
use crate::gtpv2_types::spec_msg_type_name;
use crate::ipv4::{parse_ipv4, parse_ipv4_simple};
use crate::ipv6::{parse_ipv6, parse_ipv6_simple};
use crate::l4::preparse_layer4;
use crate::pfcp::{parse_pfcp, spec_pfcp_head_ok, spec_pfcp_header_matches};
use crate::pfcp_ie::parse_all_pfcp_ies;
use crate::tcp::parse_single_tcp;
use crate::types::{
    be16, be32, read_be16, AppLayerInfo, GtpInfo, IcmpInfo, Ip6Info, IpInfo, Layer3Info,
    Layer4Info, PacketDetail, PacketSummary, ParsedDetail, TcpInfo, UdpInfo, ICMP_HDR_LEN,
    IP6_HDR_LEN, IP_HDR_LEN, MIN_ETH_HDR_LEN, NEXT_HDR_IPV4, NEXT_HDR_IPV6, PROTO_TYPE_ICMP,
    PROTO_TYPE_IPINIP, PROTO_TYPE_TCP, PROTO_TYPE_UDP, TCP_HDR_LEN, UDP_HDR_LEN,
    WELLKNOWN_PORT_GTPV2, WELLKNOWN_PORT_PFCP,
};
use crate::udp::parse_single_udp;
use crate::icmp::parse_single_icmp;
use crate::addr::spec_ipv4_text;

verus! {

/// The ethertype of an Ethernet frame.
pub fn parse_ethernet(data: &[u8]) -> (r: usize)
    requires
        data@.len() >= MIN_ETH_HDR_LEN,
    ensures
        r == be16(data@[12], data@[13]) as usize,
{
    read_be16(data[12], data[13]) as usize
}

/// Decodes one network-layer header into the detail record and returns
/// the next protocol number and the header length consumed.  Ethertypes
/// this crate does not understand yield zeroes and leave the record
/// unchanged.
pub fn parse_l3(next_type: usize, ip_hdr: &[u8], parsed_packet: &mut PacketDetail) -> (r: (
    usize,
    usize,
))
    ensures
        next_type != PROTO_TYPE_IPINIP && next_type != NEXT_HDR_IPV4 && next_type != NEXT_HDR_IPV6
            ==> r == (0usize, 0usize) && *final(parsed_packet) == *old(parsed_packet),
        (next_type == PROTO_TYPE_IPINIP || next_type == NEXT_HDR_IPV4) ==> {
            &&& r.1 == IP_HDR_LEN
            &&& final(parsed_packet).l3@.len() == old(parsed_packet).l3@.len() + 1
            &&& final(parsed_packet).l3@.last() is IP
            &&& (ip_hdr@.len() >= 20 && (ip_hdr@[0] & 0x0f) as usize * 4 == IP_HDR_LEN ==> {
                &&& r.0 == ip_hdr@[9] as usize
                &&& (final(parsed_packet).l3@.last() matches Layer3Info::IP(ip)
                    && ip.protocol == ip_hdr@[9] && ip.src_addr@ == spec_ipv4_text(
                    be32(ip_hdr@[12], ip_hdr@[13], ip_hdr@[14], ip_hdr@[15]),
                ) && ip.dst_addr@ == spec_ipv4_text(
                    be32(ip_hdr@[16], ip_hdr@[17], ip_hdr@[18], ip_hdr@[19]),
                ))
            })
        },
        next_type == NEXT_HDR_IPV6 ==> {
            &&& r.1 == IP6_HDR_LEN
            &&& final(parsed_packet).l3@.len() == old(parsed_packet).l3@.len() + 1
            &&& final(parsed_packet).l3@.last() is IP6
            &&& (ip_hdr@.len() >= 40 ==> r.0 == ip_hdr@[6] as usize)
        },
{
    if next_type == PROTO_TYPE_IPINIP || next_type == NEXT_HDR_IPV4 {
        let mut ip = IpInfo::new();
        let next_hdr_type = parse_ipv4(ip_hdr, &mut ip);
        parsed_packet.l3.push(Layer3Info::IP(ip));
        (next_hdr_type, IP_HDR_LEN)
    } else if next_type == NEXT_HDR_IPV6 {
        let mut ip6 = Ip6Info::new();
        let next_hdr_type = parse_ipv6(ip_hdr, &mut ip6);
        parsed_packet.l3.push(Layer3Info::IP6(ip6));
        (next_hdr_type, IP6_HDR_LEN)
    } else {
        (0, 0)
    }
}

/// Decodes one transport-layer header into the detail record and returns
/// the destination port (zero for ICMP) and the header length consumed.
/// Protocols this crate does not understand yield zeroes and leave the
/// record unchanged.
pub fn parse_l4(next_type: usize, data_buf: &[u8], parsed_packet: &mut PacketDetail) -> (r: (
    u16,
    usize,
))
    ensures
        next_type != PROTO_TYPE_TCP && next_type != PROTO_TYPE_UDP && next_type != PROTO_TYPE_ICMP
            ==> r == (0u16, 0usize) && *final(parsed_packet) == *old(parsed_packet),
        next_type == PROTO_TYPE_TCP ==> r.1 == TCP_HDR_LEN && final(parsed_packet).l4 is TCP && (
        data_buf@.len() >= 20 ==> r.0 == be16(data_buf@[2], data_buf@[3])
            && (final(parsed_packet).l4 matches Layer4Info::TCP(t) && t.src_port == be16(
            data_buf@[0],
            data_buf@[1],
        ) && t.dst_port == be16(data_buf@[2], data_buf@[3]))),
        next_type == PROTO_TYPE_UDP ==> r.1 == UDP_HDR_LEN && final(parsed_packet).l4 is UDP && (
        data_buf@.len() >= 8 ==> r.0 == be16(data_buf@[2], data_buf@[3])
            && (final(parsed_packet).l4 matches Layer4Info::UDP(u) && u.src_port == be16(
            data_buf@[0],
            data_buf@[1],
        ) && u.dst_port == be16(data_buf@[2], data_buf@[3]))),
        next_type == PROTO_TYPE_ICMP ==> r == (0u16, ICMP_HDR_LEN as usize)
            && final(parsed_packet).l4 is ICMP,
{
    if next_type == PROTO_TYPE_TCP {
        let mut tcp = TcpInfo::new();
        let result = parse_single_tcp(data_buf, &mut tcp);
        parsed_packet.l4 = Layer4Info::TCP(tcp);
        (result, TCP_HDR_LEN)
    } else if next_type == PROTO_TYPE_UDP {
        let mut udp = UdpInfo::new();
        let result = parse_single_udp(data_buf, &mut udp);
        parsed_packet.l4 = Layer4Info::UDP(udp);
        (result, UDP_HDR_LEN)
    } else if next_type == PROTO_TYPE_ICMP {
        let mut icmp = IcmpInfo::new();
        let result = parse_single_icmp(data_buf, &mut icmp);
        parsed_packet.l4 = Layer4Info::ICMP(icmp);
        (result, ICMP_HDR_LEN)
    } else {
        (0, 0)
    }
}

/// Decodes one application-layer message into the detail record, by
/// destination port.  Ports this crate does not understand, and messages
/// whose fixed header cannot be decoded, leave the record unchanged.
pub fn parse_app(port_number: u16, data_buf: &[u8], parsed_packet: &mut PacketDetail)
    ensures
        port_number != WELLKNOWN_PORT_GTPV2 && port_number != WELLKNOWN_PORT_PFCP
            ==> *final(parsed_packet) == *old(parsed_packet),
        final(parsed_packet).id == old(parsed_packet).id,
        final(parsed_packet).l3 == old(parsed_packet).l3,
        final(parsed_packet).l4 == old(parsed_packet).l4,
        port_number == WELLKNOWN_PORT_GTPV2 && spec_head_ok(data_buf@) && spec_gtp_header(
            data_buf@,
        ).msg_len as int <= data_buf@.len() ==> {
            let h = spec_gtp_header(data_buf@);
            let iebytes = data_buf@.subrange(spec_gtp_hdr_len(data_buf@[0]), data_buf@.len() as int);
            &&& (final(parsed_packet).app matches AppLayerInfo::GTP(g) && g.msg_type == h.msg_type
                && g.msg_type_str@ == spec_msg_type_name(h.msg_type) && g.teid == h.teid && g.seq
                == h.seq && g.msg_len == h.msg_len && (match spec_ie_frames(iebytes, true) {
                Some(_) => spec_ies_match_hard(g.ies@, iebytes),
                Option::<Seq<crate::gtp_ie::IeFrame>>::None => g.ies@.len() == 0,
            }))
        },
{
    if port_number == WELLKNOWN_PORT_GTPV2 {
        match parse_gtpc_detail(data_buf) {
            Ok((mut gtpinfo, consumed)) => {
                let rest = &data_buf[consumed..data_buf.len()];
                let ies = match parse_all_ies(rest) {
                    Ok(v) => v,
                    Err(_) => Vec::new(),
                };
                gtpinfo.ies = ies;
                parsed_packet.app = AppLayerInfo::GTP(gtpinfo);
            },
            Err(_) => {},
        }
    } else if port_number == WELLKNOWN_PORT_PFCP {
        let mut scratch = PacketSummary::new();
        match parse_pfcp(data_buf, &mut scratch) {
            Ok((head, consumed)) => {
                let rest = &data_buf[consumed..data_buf.len()];
                let ies = match parse_all_pfcp_ies(rest) {
                    Ok(v) => v,
                    Err(_) => Vec::new(),
                };
                parsed_packet.app = AppLayerInfo::PFCP(
                    crate::pfcp::PfcpInfo {
                        version: head.version,
                        fo_flag: head.fo_flag,
                        mp_flag: head.mp_flag,
                        s_flag: head.s_flag,
                        msg_type: head.msg_type,
                        msg_len: head.msg_len,
                        seid: head.seid,
                        seq: head.seq,
                        mp: head.mp,
                        ies,
                    },
                );
            },
            Err(_) => {},
        }
    }
}

/// Decodes one frame, layer by layer, into a detail record.  A frame that
/// carries IPv4 without options, UDP, and a complete tunneling-protocol
/// message on the well-known port gets its application layer decoded
/// exactly.  Fails exactly when the frame is shorter than an Ethernet
/// header.
#[verifier::loop_isolation(false)]
#[verifier::rlimit(100)]
#[verifier::spinoff_prover]
pub fn parse_single_packet(data: &[u8], id: usize) -> (r: Result<ParsedDetail, String>)
    ensures
        r is Ok <==> data@.len() >= MIN_ETH_HDR_LEN,
        r matches Ok(d) ==> d.id == id,
        r matches Ok(d) ==> ((data@.len() >= 42 && be16(data@[12], data@[13]) == 0x0800 && data@[14]
            & 0x0f == 5 && data@[23] == PROTO_TYPE_UDP as u8 && be16(data@[36], data@[37])
            == WELLKNOWN_PORT_GTPV2 && spec_head_ok(data@.subrange(42, data@.len() as int))
            && spec_gtp_header(data@.subrange(42, data@.len() as int)).msg_len as int <= data@.len()
            - 42) ==> ({
            let g = data@.subrange(42, data@.len() as int);
            let h = spec_gtp_header(g);
            let iebytes = data@.subrange(42 + spec_gtp_hdr_len(data@[42]), data@.len() as int);
            &&& (d.packet.app matches AppLayerInfo::GTP(gi) && gi.msg_type == h.msg_type
                && gi.msg_type_str@ == spec_msg_type_name(h.msg_type) && gi.teid == h.teid
                && gi.seq == h.seq && (match spec_ie_frames(iebytes, true) {
                Some(_) => spec_ies_match_hard(gi.ies@, iebytes),
                Option::<Seq<crate::gtp_ie::IeFrame>>::None => gi.ies@.len() == 0,
            }))
            &&& (d.packet.l4 matches Layer4Info::UDP(u) && u.src_port == be16(
                data@[34],
                data@[35],
            ) && u.dst_port == be16(data@[36], data@[37]))
        })),
{
    if data.len() < MIN_ETH_HDR_LEN {
        return Err(String::from_str("Layer 2 parsing failed"));
    }
    let mut parsed_packet = PacketDetail::new();
    let first_type = parse_ethernet(data);
    let (np, l3_hdr_len) = parse_l3(first_type, &data[14..data.len()], &mut parsed_packet);
    let mut next_type = np;
    let mut offset: usize = MIN_ETH_HDR_LEN;
    if l3_hdr_len == 0 || l3_hdr_len > data.len() - offset {
        offset = data.len();
    } else {
        offset += l3_hdr_len;
    }
    if next_type == PROTO_TYPE_IPINIP {
        while next_type == PROTO_TYPE_IPINIP
            invariant
                offset <= data@.len(),
            decreases data@.len() - offset,
        {
            let (np2, l3len2) = parse_l3(next_type, &data[offset..data.len()], &mut parsed_packet);
            next_type = np2;
            if l3len2 == 0 || l3len2 > data.len() - offset {
                offset = data.len();
                break;
            }
            offset += l3len2;
        }
    }
    let (port_number, l4_hdr_len) = parse_l4(
        next_type,
        &data[offset..data.len()],
        &mut parsed_packet,
    );
    if l4_hdr_len <= data.len() - offset {
        offset += l4_hdr_len;
    } else {
        offset = data.len();
    }
    parse_app(port_number, &data[offset..data.len()], &mut parsed_packet);
    proof {
        if data@.len() >= 42 && offset == 42 {
            let g = data@.subrange(42, data@.len() as int);
            if spec_head_ok(g) {
                assert(g.subrange(spec_gtp_hdr_len(g[0]), g.len() as int) =~= data@.subrange(
                    42 + spec_gtp_hdr_len(data@[42]),
                    data@.len() as int,
                ));
            }
        }
    }
    Ok(ParsedDetail { id, packet: parsed_packet })
}

/// Builds one capture-summary row for one frame: timestamp and index, the
/// network and transport fields, and the application-protocol label.
/// Frames that carry neither IPv4 nor IPv6, or whose network header does
/// not decode, yield nothing, as the capture summary skips them.
#[verifier::rlimit(100)]
#[verifier::spinoff_prover]
pub fn summarize_packet(data: &[u8], idx: usize, ts: String, tot_len: usize) -> (r: Option<
    PacketSummary,
>)
    ensures
        ({
            let eth_ok = data@.len() >= MIN_ETH_HDR_LEN;
            let ethertype = be16(data@[12], data@[13]) as usize;
            &&& (r is Some <==> eth_ok && (ethertype == NEXT_HDR_IPV4 || ethertype
                == NEXT_HDR_IPV6) && (ethertype == NEXT_HDR_IPV4 ==> data@.len() >= 34)
                && (ethertype == NEXT_HDR_IPV6 ==> data@.len() >= 54) && (ethertype
                == NEXT_HDR_IPV4 ==> data@[23] != 0) && (ethertype == NEXT_HDR_IPV6 ==> data@[20]
                != 0))
            &&& (r matches Some(p) ==> p.id == idx && p.ts@ == ts@)
            &&& (r matches Some(p) ==> ((eth_ok && ethertype == NEXT_HDR_IPV4 && data@[23]
                == PROTO_TYPE_UDP as u8 && data@.len() >= 42) ==> (p.src_ip@ == spec_ipv4_text(
                be32(data@[26], data@[27], data@[28], data@[29]),
            ) && p.dst_ip@ == spec_ipv4_text(be32(data@[30], data@[31], data@[32], data@[33]))
                && p.src_port == be16(data@[34], data@[35]) && p.dst_port == be16(
                data@[36],
                data@[37],
            ))))
        }),
{
    if data.len() < MIN_ETH_HDR_LEN {
        return None;
    }
    let mut parsed_packet = PacketSummary::new();
    parsed_packet.id = idx;
    parsed_packet.ts = ts;
    let next_type = parse_ethernet(data);
    if next_type != NEXT_HDR_IPV4 && next_type != NEXT_HDR_IPV6 {
        return None;
    }
    let mut hdr_len: usize = MIN_ETH_HDR_LEN;
    let next_proto: usize = if next_type == NEXT_HDR_IPV4 {
        if data.len() < 34 {
            return None;
        }
        let p = parse_ipv4_simple(&data[hdr_len..data.len()], &mut parsed_packet);
        proof {
            assert(parsed_packet.src_ip@ =~= spec_ipv4_text(
                be32(data@[26], data@[27], data@[28], data@[29]),
            ));
            assert(parsed_packet.dst_ip@ =~= spec_ipv4_text(
                be32(data@[30], data@[31], data@[32], data@[33]),
            ));
        }
        hdr_len += IP_HDR_LEN;
        p
    } else {
        if data.len() < 54 {
            return None;
        }
        let p = parse_ipv6_simple(&data[hdr_len..data.len()], &mut parsed_packet);
        hdr_len += IP6_HDR_LEN;
        p
    };
    if next_proto == 0 {
        return None;
    }
    let (port_number, l4_hdr_len) = preparse_layer4(
        next_proto,
        &data[hdr_len..data.len()],
        &mut parsed_packet,
    );
    if port_number == 0 || l4_hdr_len == 0 || l4_hdr_len > data.len() - hdr_len {
        return Some(parsed_packet);
    }
    hdr_len += l4_hdr_len;
    if tot_len >= hdr_len {
        parsed_packet.length = tot_len - hdr_len;
    }
    if port_number == WELLKNOWN_PORT_GTPV2 {
        parsed_packet.protocol = String::from_str("GTP2-C");
        let _ = parse_gtpc(&data[hdr_len..data.len()], &mut parsed_packet);
    } else if port_number == WELLKNOWN_PORT_PFCP {
        parsed_packet.protocol = String::from_str("PFCP");
        let _ = parse_pfcp(&data[hdr_len..data.len()], &mut parsed_packet);
    }
    Some(parsed_packet)
}

} // verus!

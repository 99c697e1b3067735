use pcap_web_parser::file_manage::{FileId, PcapFiles};
use pcap_web_parser::gtp::parse_gtpc;
use pcap_web_parser::icmp::{parse_icmp_simple, parse_single_icmp};
use pcap_web_parser::ipv4::{parse_ipv4, parse_ipv4_simple};
use pcap_web_parser::ipv6::{parse_ipv6, parse_ipv6_simple};
use pcap_web_parser::l4::preparse_layer4;
use pcap_web_parser::parse_pcap::{parse_ethernet, parse_single_packet, summarize_packet};
use pcap_web_parser::pfcp::{parse_pfcp, pfcp_msg_type_name, PfcpHeader};
use pcap_web_parser::pfcp_ie::{decode_fseid, parse_all_pfcp_ies, FSeidValue, PfcpIeValue};
use pcap_web_parser::port::{port_to_str, protocol_to_str, v6_ext_hdr_to_str};
use pcap_web_parser::tcp::{parse_single_tcp, parse_tcp_simple};
use pcap_web_parser::types::{
    AppLayerInfo, IcmpInfo, Ip6Info, IpInfo, Layer4Info, PacketSummary, TcpInfo, UdpInfo,
};
use pcap_web_parser::udp::{parse_single_udp, parse_udp_simple};

fn gtp_frame(src: [u8; 4], dst: [u8; 4], dst_port: u16, msg_type: u8) -> Vec<u8> {
    let mut f = Vec::new();
    f.extend_from_slice(&[0u8; 12]);
    f.extend_from_slice(&[0x08, 0x00]);
    f.extend_from_slice(&[0x45, 0x00, 0x00, 0x00, 0x00, 0x00, 0x00, 0x00, 0x40, 17, 0x00, 0x00]);
    f.extend_from_slice(&src);
    f.extend_from_slice(&dst);
    f.extend_from_slice(&2152u16.to_be_bytes());
    f.extend_from_slice(&dst_port.to_be_bytes());
    f.extend_from_slice(&[0x00, 0x00, 0x00, 0x00]);
    f.push(0x48);
    f.push(msg_type);
    f.extend_from_slice(&8u16.to_be_bytes());
    f.extend_from_slice(&7u32.to_be_bytes());
    f.extend_from_slice(&[0x00, 0x00, 0x09, 0x00]);
    f
}

#[test]
fn ethernet_reads_ethertype() {
    let f = gtp_frame([1, 2, 3, 4], [5, 6, 7, 8], 2123, 32);
    assert_eq!(parse_ethernet(&f), 0x0800);
}

#[test]
fn ipv4_simple_fills_summary() {
    let f = gtp_frame([10, 10, 2, 72], [10, 10, 1, 71], 2123, 32);
    let mut row = PacketSummary::new();
    let next = parse_ipv4_simple(&f[14..], &mut row);
    assert_eq!(next, 17);
    assert_eq!(row.src_ip, "10.10.2.72");
    assert_eq!(row.dst_ip, "10.10.1.71");
    assert_eq!(row.protocol, "UDP");
}

#[test]
fn ipv4_detail_fills_record() {
    let f = gtp_frame([10, 10, 2, 72], [10, 10, 1, 71], 2123, 32);
    let mut ip = IpInfo::new();
    let next = parse_ipv4(&f[14..], &mut ip);
    assert_eq!(next, 17);
    assert_eq!(ip.version, 4);
    assert_eq!(ip.ihl, 20);
    assert_eq!(ip.ttl, 0x40);
    assert_eq!(ip.protocol, 17);
    assert_eq!(ip.src_addr, "10.10.2.72");
    assert_eq!(ip.next, "UDP");
    assert_eq!(ip.raw.len(), 20);
}

#[test]
fn ipv6_decodes_header() {
    let mut h = vec![0x60, 0x00, 0x00, 0x00];
    h.extend_from_slice(&16u16.to_be_bytes());
    h.push(17);
    h.push(64);
    h.extend_from_slice(&[0u8; 15]);
    h.push(1);
    h.extend_from_slice(&[0x20, 0x01, 0x0d, 0xb8]);
    h.extend_from_slice(&[0u8; 11]);
    h.push(2);
    let mut ip6 = Ip6Info::new();
    let next = parse_ipv6(&h, &mut ip6);
    assert_eq!(next, 17);
    assert_eq!(ip6.version, 6);
    assert_eq!(ip6.pl, 16);
    assert_eq!(ip6.hop, 64);
    assert_eq!(ip6.src_addr, "::1");
    assert_eq!(ip6.dst_addr, "2001:db8::2");
    let mut row = PacketSummary::new();
    let next2 = parse_ipv6_simple(&h, &mut row);
    assert_eq!(next2, 17);
    assert_eq!(row.src_ip, "::1");
}

#[test]
fn udp_and_tcp_headers_decode() {
    let udp_bytes = [0x08, 0x4b, 0x08, 0x4b, 0x00, 0x10, 0xab, 0xcd];
    let mut row = PacketSummary::new();
    assert_eq!(parse_udp_simple(&udp_bytes, &mut row), 2123);
    assert_eq!(row.src_port, 2123);
    let mut udp = UdpInfo::new();
    assert_eq!(parse_single_udp(&udp_bytes, &mut udp), 2123);
    assert_eq!(udp.length, 16);
    assert_eq!(udp.checksum, 0xabcd);
    assert_eq!(udp.str_dst_port, "GTPv2-C");

    let mut tcp_bytes = vec![0x00, 0x50, 0x1f, 0x90];
    tcp_bytes.extend_from_slice(&100u32.to_be_bytes());
    tcp_bytes.extend_from_slice(&200u32.to_be_bytes());
    tcp_bytes.extend_from_slice(&[0x50, 0x12]);
    tcp_bytes.extend_from_slice(&[0x10, 0x00, 0xfe, 0xdc, 0x00, 0x00]);
    let mut row2 = PacketSummary::new();
    assert_eq!(parse_tcp_simple(&tcp_bytes, &mut row2), 0x1f90);
    let mut tcp = TcpInfo::new();
    assert_eq!(parse_single_tcp(&tcp_bytes, &mut tcp), 0x1f90);
    assert_eq!(tcp.seq, 100);
    assert_eq!(tcp.ack, 200);
    assert_eq!(tcp.header_sz, 20);
    assert_eq!(tcp.flags, 0x12);
    assert_eq!(tcp.src_port_str, "HTTP");
}

#[test]
fn icmp_headers_decode() {
    let bytes = [0x00, 0x00, 0x12, 0x34, 0x00, 0x07, 0x00, 0x09];
    let mut row = PacketSummary::new();
    assert_eq!(parse_icmp_simple(&bytes, &mut row), 0);
    assert_eq!(row.description, "Echo Request");
    let mut icmp = IcmpInfo::new();
    assert_eq!(parse_single_icmp(&bytes, &mut icmp), 0);
    assert_eq!(icmp.id, 7);
    assert_eq!(icmp.seq, 9);
}

#[test]
fn layer4_dispatch_labels_protocol() {
    let udp_bytes = [0x08, 0x4b, 0x08, 0x4b, 0x00, 0x10, 0xab, 0xcd];
    let mut row = PacketSummary::new();
    let (port, len) = preparse_layer4(17, &udp_bytes, &mut row);
    assert_eq!(port, 2123);
    assert_eq!(len, 8);
    assert_eq!(row.protocol, "UDP");
    let mut row2 = PacketSummary::new();
    assert_eq!(preparse_layer4(99, &udp_bytes, &mut row2), (0, 0));
}

#[test]
fn name_tables() {
    assert_eq!(protocol_to_str(17).unwrap(), "UDP");
    assert!(protocol_to_str(200).is_none());
    assert_eq!(port_to_str(2123).unwrap(), "GTPv2-C");
    assert_eq!(port_to_str(8805).unwrap(), "PFCP");
    assert!(port_to_str(12345).is_none());
    assert_eq!(v6_ext_hdr_to_str(44).unwrap(), "Fragment Extension Header");
    assert!(v6_ext_hdr_to_str(17).is_none());
}

#[test]
fn gtpc_summary_label() {
    let f = gtp_frame([1, 1, 1, 1], [2, 2, 2, 2], 2123, 32);
    let mut row = PacketSummary::new();
    let (h, _) = parse_gtpc(&f[42..], &mut row).unwrap();
    assert_eq!(h.msg_type, 32);
    assert_eq!(h.seq, 9);
    assert_eq!(row.description, "Create Session Request [32]");
}

#[test]
fn summarize_gtp_frame() {
    let f = gtp_frame([10, 10, 2, 72], [10, 10, 1, 71], 2123, 32);
    let row = summarize_packet(&f, 3, String::from("12:00:00.000"), f.len()).unwrap();
    assert_eq!(row.id, 3);
    assert_eq!(row.ts, "12:00:00.000");
    assert_eq!(row.src_ip, "10.10.2.72");
    assert_eq!(row.dst_ip, "10.10.1.71");
    assert_eq!(row.src_port, 2152);
    assert_eq!(row.dst_port, 2123);
    assert_eq!(row.protocol, "GTP2-C");
    assert_eq!(row.description, "Create Session Request [32]");
    // A frame that is not IP at all is skipped.
    let mut arp = f.clone();
    arp[12] = 0x08;
    arp[13] = 0x06;
    assert!(summarize_packet(&arp, 4, String::new(), arp.len()).is_none());
}

#[test]
fn detail_decodes_layer_by_layer() {
    let f = gtp_frame([10, 10, 2, 72], [10, 10, 1, 71], 2123, 32);
    let d = parse_single_packet(&f, 5).unwrap();
    assert_eq!(d.id, 5);
    assert_eq!(d.packet.l3.len(), 1);
    assert!(matches!(d.packet.l4, Layer4Info::UDP(_)));
    match &d.packet.app {
        AppLayerInfo::GTP(g) => {
            assert_eq!(g.msg_type, 32);
            assert_eq!(g.msg_type_str, "Create Session Request");
            assert_eq!(g.teid, Some(7));
            assert_eq!(g.seq, 9);
        },
        a => panic!("unexpected app layer {:?}", a),
    }
    assert!(parse_single_packet(&f[0..10], 5).is_err());
}

#[test]
fn pfcp_header_and_elements() {
    // Heartbeat request without a session id: recovery timestamp element.
    let mut msg = vec![0x20, 1];
    msg.extend_from_slice(&12u16.to_be_bytes());
    msg.extend_from_slice(&[0x00, 0x00, 0x05, 0x00]);
    let mut row = PacketSummary::new();
    let (h, consumed) = parse_pfcp(&msg, &mut row).unwrap();
    assert_eq!(h.version, 1);
    assert!(!h.s_flag);
    assert_eq!(h.seq, 5);
    assert_eq!(consumed, 8);
    assert_eq!(row.description, "Heartbeat Request");
    assert_eq!(pfcp_msg_type_name(50), "Session Establishment Request");
    let hdr = PfcpHeader::new();
    assert!(hdr.seid.is_none());

    let mut ies = vec![0x00, 96];
    ies.extend_from_slice(&4u16.to_be_bytes());
    ies.extend_from_slice(&0xdeadbeefu32.to_be_bytes());
    let parsed = parse_all_pfcp_ies(&ies).unwrap();
    assert_eq!(parsed.len(), 1);
    assert_eq!(parsed[0].ie_type, 96);
    assert!(matches!(parsed[0].ie_value, PfcpIeValue::Uint32(0xdeadbeef)));
}

#[test]
fn fseid_decodes_addresses_by_flags() {
    let mut v = vec![0x02];
    v.extend_from_slice(&9u32.to_be_bytes());
    v.extend_from_slice(&[10, 0, 0, 1]);
    match decode_fseid(&v).unwrap() {
        PfcpIeValue::FSeid(f) => {
            assert!(f.v4 && !f.v6);
            assert_eq!(f.seid, 9);
            assert_eq!(f.ipv4.as_deref(), Some("10.0.0.1"));
        },
        v => panic!("unexpected value {:?}", v),
    }
    assert!(decode_fseid(&v[0..3]).is_err());
    let fresh = FSeidValue::new();
    assert_eq!(fresh.seid, 0);
}

#[test]
fn file_registry_stores_and_returns_captures() {
    let mut files = PcapFiles::new();
    let mut row = PacketSummary::new();
    row.id = 1;
    row.protocol = String::from("UDP");
    let id = files.insert_file(
        String::from("cafe"),
        String::from("capture.pcap"),
        vec![row],
        1000,
    );
    assert_eq!(id, FileId::new(1));
    let ctx = files.get_file_name(id).unwrap();
    assert_eq!(ctx.uuid, "cafe");
    assert_eq!(ctx.original_name, "capture.pcap");
    assert_eq!(ctx.packets.len(), 1);
    let one = files.get_packet(id, 0).unwrap();
    assert_eq!(one.len(), 1);
    assert_eq!(one[0].protocol, "UDP");
    assert!(files.get_packet(id, 5).is_none());
    assert!(files.get_file_name(FileId::new(99)).is_none());
}

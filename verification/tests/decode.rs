use pcap_web_parser::addr::{ipv4_text, ipv6_text, u16_hex_string, u32_dec_string};
use pcap_web_parser::gtp::{
    get_gtp_hdr_len, get_gtp_teid, get_msg_type_from_gtpc, head_parser, GtpHeader,
};
use pcap_web_parser::gtp_ie::{
    decode_ambr, decode_apn, decode_bcd, decode_bearer_tft, decode_bearerqos, decode_ebi,
    decode_fteid, decode_ipv4, decode_mcc_mnc, decode_serving_network, find_ie_bearer_ctx,
    find_ie_ebi, find_ie_fteid, find_ie_imsi, parse_all_ies, parse_uli_ie, FTeidValue,
    GtpIeValue, PacketFilterComponent,
};
use pcap_web_parser::gtpv2_types::{ie_is_grouped, ie_type_name, msg_type_name};

fn header_bytes(t_flag: bool, mp_flag: bool) -> Vec<u8> {
    let mut flags = 0x40u8;
    if t_flag {
        flags |= 0x08;
    }
    if mp_flag {
        flags |= 0x04;
    }
    let mut v = vec![flags, 32, 0x00, 0x20];
    if t_flag {
        v.extend_from_slice(&[0xde, 0xad, 0xbe, 0xef]);
    }
    v.extend_from_slice(&[0x00, 0x00, 0x07]);
    if mp_flag {
        v.push(0x50);
    }
    v.push(0x00);
    v
}

#[test]
fn header_length_agrees_with_decoder_for_all_flag_combinations() {
    for &(t, m) in &[(false, false), (false, true), (true, false), (true, true)] {
        let bytes = header_bytes(t, m);
        let (_, consumed) = head_parser(&bytes).expect("complete header");
        assert_eq!(get_gtp_hdr_len(&bytes), consumed);
        assert_eq!(consumed, 8 + if t { 4 } else { 0 } + if m { 1 } else { 0 });
    }
}

#[test]
fn header_fields_decode_exactly() {
    let bytes = header_bytes(true, true);
    let (h, _) = head_parser(&bytes).expect("complete header");
    assert_eq!(h.version, 2);
    assert!(h.t_flag && h.mp_flag && !h.p_flag);
    assert_eq!(h.msg_type, 32);
    assert_eq!(h.msg_len, 0x20);
    assert_eq!(h.teid, Some(0xdeadbeef));
    assert_eq!(h.seq, 7);
    assert_eq!(h.mp, Some(5));
}

#[test]
fn header_too_short_is_rejected() {
    let bytes = header_bytes(true, false);
    assert!(head_parser(&bytes[0..7]).is_err());
    assert!(head_parser(&bytes[0..11]).is_err());
    assert!(head_parser(&bytes).is_ok());
}

#[test]
fn teid_lookup_requires_the_flag() {
    let with = header_bytes(true, false);
    let without = header_bytes(false, false);
    assert_eq!(get_gtp_teid(&with).unwrap().1, 0xdeadbeef);
    assert!(get_gtp_teid(&without).is_err());
}

#[test]
fn message_type_names() {
    assert_eq!(msg_type_name(32), "Create Session Request");
    assert_eq!(msg_type_name(37), "Delete Session Response");
    assert_eq!(msg_type_name(176), "Downlink Data Notification");
    assert_eq!(msg_type_name(250), "Unknown");
    let bytes = header_bytes(false, false);
    let (n, name) = get_msg_type_from_gtpc(&bytes).unwrap();
    assert_eq!(n, 2);
    assert_eq!(name, "Create Session Request");
}

#[test]
fn bcd_decodes_low_nibble_first() {
    // P2: [0x21, 0x43] is the digit string "1234".
    match decode_bcd(&[0x21, 0x43]).unwrap() {
        GtpIeValue::Utf8String(s) => assert_eq!(s, "1234"),
        v => panic!("unexpected value {:?}", v),
    }
}

#[test]
fn bcd_skips_out_of_range_nibbles() {
    // A first byte whose low nibble is above nine is skipped, as are
    // filler nibbles elsewhere.
    match decode_bcd(&[0x2a, 0x43]).unwrap() {
        GtpIeValue::Utf8String(s) => assert_eq!(s, "234"),
        v => panic!("unexpected value {:?}", v),
    }
    match decode_bcd(&[0x21, 0xf3]).unwrap() {
        GtpIeValue::Utf8String(s) => assert_eq!(s, "123"),
        v => panic!("unexpected value {:?}", v),
    }
    assert!(decode_bcd(&[]).is_err());
}

#[test]
fn mcc_mnc_nibble_extraction() {
    // P3: the exact field rule applied to [0x21, 0xF3, 0x54]: the country
    // code digits are the low then high nibble of byte one and the low
    // nibble of byte two; the third network-code nibble is 5, not the 0xF
    // sentinel, so the network code has three digits.
    let (mcc, mnc) = decode_mcc_mnc(0x21, 0xf3, 0x54);
    assert_eq!(mcc, "123");
    assert_eq!(mnc, "1545");
    // With the sentinel in the high nibble of byte three, the network
    // code has two digits.
    let (mcc2, mnc2) = decode_mcc_mnc(0x21, 0x03, 0xf4);
    assert_eq!(mcc2, "123");
    assert_eq!(mnc2, "04");
}

#[test]
fn serving_network_decodes_three_bytes() {
    match decode_serving_network(&[0x21, 0x03, 0xf4]).unwrap() {
        GtpIeValue::ServingNetwork(sn) => {
            assert_eq!(sn.mcc, "123");
            assert_eq!(sn.mnc, "04");
        },
        v => panic!("unexpected value {:?}", v),
    }
    assert!(decode_serving_network(&[1, 2]).is_err());
}

#[test]
fn ambr_decodes_two_rates() {
    match decode_ambr(&[0, 0, 0x27, 0x10, 0, 0, 0x03, 0xe8]).unwrap() {
        GtpIeValue::Ambr(a) => {
            assert_eq!(a.ul, 10000);
            assert_eq!(a.dl, 1000);
        },
        v => panic!("unexpected value {:?}", v),
    }
    assert!(decode_ambr(&[1, 2, 3]).is_err());
}

#[test]
fn ebi_is_low_nibble() {
    assert!(matches!(decode_ebi(&[0xf5]).unwrap(), GtpIeValue::Uint8(5)));
    assert!(decode_ebi(&[]).is_err());
}

#[test]
fn apn_decodes_utf8_and_rejects_invalid() {
    match decode_apn(b"internet").unwrap() {
        GtpIeValue::Apn(s) => assert_eq!(s, "internet"),
        v => panic!("unexpected value {:?}", v),
    }
    assert!(decode_apn(&[0xff, 0xfe]).is_err());
    assert!(decode_apn(&[]).is_err());
}

#[test]
fn ipv4_value_decodes_to_dotted_quad() {
    match decode_ipv4(&[10, 10, 1, 71]).unwrap() {
        GtpIeValue::Ipv4(s) => assert_eq!(s, "10.10.1.71"),
        v => panic!("unexpected value {:?}", v),
    }
    assert!(decode_ipv4(&[10, 10]).is_err());
}

#[test]
fn bearer_qos_decodes_flags_and_rates() {
    let mut b = vec![0x65, 9];
    b.extend_from_slice(&100u32.to_be_bytes());
    b.extend_from_slice(&200u32.to_be_bytes());
    b.extend_from_slice(&300u32.to_be_bytes());
    b.extend_from_slice(&400u32.to_be_bytes());
    match decode_bearerqos(&b).unwrap() {
        GtpIeValue::BearerQoS(q) => {
            assert!(q.pci && q.pvi);
            assert_eq!(q.pl, 9);
            assert_eq!(q.qci, 9);
            assert_eq!(q.mbr_ul, 100);
            assert_eq!(q.mbr_dl, 200);
            assert_eq!(q.gbr_ul, 300);
            assert_eq!(q.gbr_dl, 400);
        },
        v => panic!("unexpected value {:?}", v),
    }
}

#[test]
fn fteid_decodes_addresses_by_flags() {
    let mut v4 = vec![0x84];
    v4.extend_from_slice(&0x01020304u32.to_be_bytes());
    v4.extend_from_slice(&[10, 10, 3, 73]);
    match decode_fteid(&v4).unwrap() {
        GtpIeValue::FTeid(f) => {
            assert!(f.v4 && !f.v6);
            assert_eq!(f.iface_type, 4);
            assert_eq!(f.teid, 0x01020304);
            assert_eq!(f.ipv4.as_deref(), Some("10.10.3.73"));
            assert!(f.ipv6.is_none());
        },
        v => panic!("unexpected value {:?}", v),
    }
    // Truncated descriptor: the IPv4 flag is set but the address missing.
    assert!(decode_fteid(&v4[0..7]).is_err());
}

#[test]
fn uli_decodes_tai_and_ecgi() {
    let mut v = vec![0x18];
    v.extend_from_slice(&[0x21, 0x03, 0xf4, 0x12, 0x34]);
    v.extend_from_slice(&[0x21, 0x03, 0xf4, 0x00, 0x00, 0x10, 0x01]);
    match parse_uli_ie(&v).unwrap() {
        GtpIeValue::UserLocationInfo(u) => {
            assert!(u.has_tai && u.has_ecgi);
            assert!(!u.has_cgi && !u.has_sai && !u.has_rai && !u.has_lai);
            let tai = u.tai.unwrap();
            assert_eq!(tai.mcc, "123");
            assert_eq!(tai.tac, 0x1234);
            let ecgi = u.ecgi.unwrap();
            assert_eq!(ecgi.eci, 0x1001);
        },
        v => panic!("unexpected value {:?}", v),
    }
    assert!(parse_uli_ie(&v[0..3]).is_err());
}

#[test]
fn tft_decodes_filters_and_components() {
    // Create-new-TFT with one filter holding a protocol component and a
    // single local port component.
    let content = [0x30u8, 17, 0x40, 0x08, 0x35];
    let mut v = vec![0x21];
    v.push(0x11);
    v.push(0x00);
    v.push(content.len() as u8);
    v.extend_from_slice(&content);
    match decode_bearer_tft(&v).unwrap() {
        GtpIeValue::BearerTFT(b) => {
            assert_eq!(b.tft_op_code, 1);
            assert_eq!(b.str_tft_op_code, "Create New TFT");
            assert_eq!(b.num_filter, 1);
            assert_eq!(b.packet_filter_list.len(), 1);
            let pf = &b.packet_filter_list[0];
            assert_eq!(pf.pf_dir, 1);
            assert_eq!(pf.pf_id, 1);
            let comps = &pf.packet_filter_component_list;
            assert_eq!(comps.len(), 2);
            assert!(matches!(
                comps[0].components,
                PacketFilterComponent::Protocol { proto: 17 }
            ));
            assert!(matches!(
                comps[1].components,
                PacketFilterComponent::SinglePort { port: 0x0835 }
            ));
        },
        v => panic!("unexpected value {:?}", v),
    }
}

#[test]
fn tft_unknown_component_becomes_placeholder() {
    let content = [0x77u8, 1, 2, 3];
    let mut v = vec![0x21, 0x11, 0x00];
    v.push(content.len() as u8);
    v.extend_from_slice(&content);
    match decode_bearer_tft(&v).unwrap() {
        GtpIeValue::BearerTFT(b) => {
            let comps = &b.packet_filter_list[0].packet_filter_component_list;
            assert_eq!(comps.len(), 1);
            match &comps[0].components {
                PacketFilterComponent::Unknown { t, data } => {
                    assert_eq!(*t, 0x77);
                    assert_eq!(data.as_slice(), &[1, 2, 3]);
                },
                v => panic!("unexpected component {:?}", v),
            }
        },
        v => panic!("unexpected value {:?}", v),
    }
}

#[test]
fn tft_truncated_filter_fails() {
    // Declared filter count of two but only one present.
    let v = vec![0x22, 0x11, 0x00, 0x01, 0x30];
    assert!(decode_bearer_tft(&v).is_err());
}

fn ie(t: u8, value: &[u8]) -> Vec<u8> {
    let mut v = Vec::new();
    v.push(t);
    v.extend_from_slice(&(value.len() as u16).to_be_bytes());
    v.push(0x00);
    v.extend_from_slice(value);
    v
}

#[test]
fn ie_list_decodes_headers_and_values() {
    let mut bytes = ie(1, &[0x21, 0x43]);
    bytes.extend_from_slice(&ie(73, &[0x05]));
    let ies = parse_all_ies(&bytes).unwrap();
    assert_eq!(ies.len(), 2);
    assert_eq!(ies[0].ie_type, 1);
    assert_eq!(ies[0].type_str, "IMSI");
    assert_eq!(ies[0].length, 2);
    assert_eq!(ies[1].ie_type, 73);
    assert!(matches!(ies[1].ie_value, GtpIeValue::Uint8(5)));
    assert_eq!(find_ie_imsi(&ies).unwrap(), "1234");
    assert_eq!(find_ie_ebi(&ies).unwrap(), 5);
}

#[test]
fn ie_list_hard_fails_on_truncated_value() {
    // A declared length of 9 with only 2 value bytes present.
    let bytes = [1u8, 0x00, 0x09, 0x00, 0x21, 0x43];
    assert!(parse_all_ies(&bytes).is_err());
}

#[test]
fn ie_list_stops_before_a_short_tail() {
    // One complete element followed by three stray bytes.
    let mut bytes = ie(73, &[0x05]);
    bytes.extend_from_slice(&[0xaa, 0xbb, 0xcc]);
    let ies = parse_all_ies(&bytes).unwrap();
    assert_eq!(ies.len(), 1);
}

#[test]
fn grouped_ie_stops_early_on_trailing_fragment() {
    // P4: a grouped element whose declared length covers one complete
    // sub-element plus a three-byte fragment keeps the complete one.
    let mut sub = ie(73, &[0x09]);
    sub.extend_from_slice(&[0x01, 0x02, 0x03]);
    let bytes = ie(93, &sub);
    let ies = parse_all_ies(&bytes).unwrap();
    assert_eq!(ies.len(), 1);
    assert_eq!(ies[0].ie_type, 93);
    match &ies[0].ie_value {
        GtpIeValue::SubIeList(l) => {
            assert_eq!(l.len(), 1);
            assert_eq!(l[0].ie_type, 73);
            assert!(matches!(l[0].ie_value, GtpIeValue::Uint8(9)));
        },
        v => panic!("unexpected value {:?}", v),
    }
}

#[test]
fn find_lookups_report_absence() {
    let ies = parse_all_ies(&ie(73, &[0x05])).unwrap();
    assert_eq!(find_ie_imsi(&ies).unwrap_err(), "IMSI IE not found");
    assert!(find_ie_fteid(&ies).is_err());
    assert!(find_ie_bearer_ctx(&ies).is_err());
}

#[test]
fn find_fteid_collects_all_descriptors() {
    let mut d1 = vec![0x84u8];
    d1.extend_from_slice(&1u32.to_be_bytes());
    d1.extend_from_slice(&[1, 1, 1, 1]);
    let mut d2 = vec![0x85u8];
    d2.extend_from_slice(&2u32.to_be_bytes());
    d2.extend_from_slice(&[2, 2, 2, 2]);
    let mut bytes = ie(87, &d1);
    bytes.extend_from_slice(&ie(87, &d2));
    let ies = parse_all_ies(&bytes).unwrap();
    let fteids: Vec<FTeidValue> = find_ie_fteid(&ies).unwrap();
    assert_eq!(fteids.len(), 2);
    assert_eq!(fteids[0].teid, 1);
    assert_eq!(fteids[1].teid, 2);
    assert_eq!(fteids[1].iface_type, 5);
}

#[test]
fn unknown_ie_falls_back_by_length() {
    let mut bytes = ie(200, &[0x12]);
    bytes.extend_from_slice(&ie(200, &[0x12, 0x34]));
    bytes.extend_from_slice(&ie(200, &[0x12, 0x34, 0x56, 0x78]));
    bytes.extend_from_slice(&ie(200, &[1, 2, 3, 4, 5]));
    let ies = parse_all_ies(&bytes).unwrap();
    assert!(matches!(ies[0].ie_value, GtpIeValue::Uint8(0x12)));
    assert!(matches!(ies[1].ie_value, GtpIeValue::Uint16(0x1234)));
    assert!(matches!(ies[2].ie_value, GtpIeValue::Uint32(0x12345678)));
    assert!(matches!(&ies[3].ie_value, GtpIeValue::Raw(v) if v.as_slice() == &[1, 2, 3, 4, 5]));
    assert_eq!(ies[0].type_str, "Unknown");
}

#[test]
fn ie_catalog_names_and_grouping() {
    assert_eq!(ie_type_name(87), "F-TEID");
    assert_eq!(ie_type_name(93), "Bearer Context");
    assert!(ie_is_grouped(93));
    assert!(!ie_is_grouped(87));
}

#[test]
fn new_header_is_zeroed() {
    let h = GtpHeader::new();
    assert_eq!(h.version, 0);
    assert!(h.teid.is_none());
    assert_eq!(h.seq, 0);
}

#[test]
fn decimal_and_hex_rendering() {
    assert_eq!(u32_dec_string(0), "0");
    assert_eq!(u32_dec_string(4294967295), "4294967295");
    assert_eq!(u16_hex_string(0), "0");
    assert_eq!(u16_hex_string(0xbeef), "beef");
}

#[test]
fn ipv4_text_rendering() {
    assert_eq!(ipv4_text(0x0a0a0248), "10.10.2.72");
    assert_eq!(ipv4_text(0), "0.0.0.0");
    assert_eq!(ipv4_text(0xffffffff), "255.255.255.255");
}

#[test]
fn ipv6_text_rendering() {
    assert_eq!(ipv6_text(&[0u8; 16]), "::");
    let mut loopback = [0u8; 16];
    loopback[15] = 1;
    assert_eq!(ipv6_text(&loopback), "::1");
    let mut mapped = [0u8; 16];
    mapped[10] = 0xff;
    mapped[11] = 0xff;
    mapped[12] = 192;
    mapped[13] = 168;
    mapped[14] = 0;
    mapped[15] = 1;
    assert_eq!(ipv6_text(&mapped), "::ffff:192.168.0.1");
    let full: [u8; 16] = [
        0x20, 0x01, 0x0d, 0xb8, 0x00, 0x00, 0x00, 0x00, 0x00, 0x01, 0x00, 0x00, 0x00, 0x00, 0x00,
        0x01,
    ];
    assert_eq!(ipv6_text(&full), "2001:db8::1:0:0:1");
}

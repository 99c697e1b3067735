use pcap_web_parser::gtp_call_flow::{
    check_gtp, filter_by_5tuple, filter_by_imsi, filter_by_teid, filtered_as_gtp, make_call_flow,
    scenario_step, senario_analysis, Ip5Tuple, NodeInfo, OwnedPacket, TargetInfo,
};

const MME: [u8; 4] = [10, 10, 2, 72];
const SGW: [u8; 4] = [10, 10, 1, 71];
const PGW: [u8; 4] = [10, 10, 3, 73];

/// Builds one Ethernet/IPv4/UDP frame around a GTPv2-C message.
fn gtp_frame(
    src: [u8; 4],
    dst: [u8; 4],
    dst_port: u16,
    msg_type: u8,
    teid: u32,
    seq: u32,
    ies: &[u8],
) -> Vec<u8> {
    let mut f = Vec::new();
    // Ethernet: zero MACs, IPv4 ethertype.
    f.extend_from_slice(&[0u8; 12]);
    f.extend_from_slice(&[0x08, 0x00]);
    // IPv4 header, protocol 17 (UDP).
    f.extend_from_slice(&[0x45, 0x00, 0x00, 0x00, 0x00, 0x00, 0x00, 0x00, 0x40, 17, 0x00, 0x00]);
    f.extend_from_slice(&src);
    f.extend_from_slice(&dst);
    // UDP header: source port 2123, given destination port.
    f.extend_from_slice(&2123u16.to_be_bytes());
    f.extend_from_slice(&dst_port.to_be_bytes());
    f.extend_from_slice(&[0x00, 0x00, 0x00, 0x00]);
    // GTPv2-C header: version 2, TEID flag set.
    let msg_len: u16 = 8 + ies.len() as u16;
    f.push(0x48);
    f.push(msg_type);
    f.extend_from_slice(&msg_len.to_be_bytes());
    f.extend_from_slice(&teid.to_be_bytes());
    f.push((seq >> 16) as u8);
    f.push((seq >> 8) as u8);
    f.push(seq as u8);
    f.push(0x00);
    f.extend_from_slice(ies);
    f
}

fn ie(t: u8, value: &[u8]) -> Vec<u8> {
    let mut v = Vec::new();
    v.push(t);
    v.extend_from_slice(&(value.len() as u16).to_be_bytes());
    v.push(0x00);
    v.extend_from_slice(value);
    v
}

/// IMSI "1234" as packed decimal.
fn imsi_ie(bcd: &[u8]) -> Vec<u8> {
    ie(1, bcd)
}

fn fteid_ie(teid: u32, addr: [u8; 4]) -> Vec<u8> {
    let mut v = Vec::new();
    v.push(0x80 | 0x04);
    v.extend_from_slice(&teid.to_be_bytes());
    v.extend_from_slice(&addr);
    ie(87, &v)
}

fn ebi_ie(e: u8) -> Vec<u8> {
    ie(73, &[e])
}

fn bearer_ctx(sub: &[u8]) -> Vec<u8> {
    ie(93, sub)
}

fn packets_of(frames: Vec<Vec<u8>>) -> Vec<OwnedPacket> {
    frames
        .into_iter()
        .enumerate()
        .map(|(i, data)| OwnedPacket { idx: i + 1, data, ies: Vec::new() })
        .collect()
}

/// The 18-frame synthetic flow: session creation, bearer modification,
/// dedicated-bearer creation, bearer deletion, session deletion.
fn session_frames() -> Vec<Vec<u8>> {
    let imsi = imsi_ie(&[0x21, 0x43]);
    let ctx5 = bearer_ctx(&ebi_ie(5));
    let mut ies1 = imsi.clone();
    ies1.extend_from_slice(&fteid_ie(0x0101, MME));
    ies1.extend_from_slice(&ctx5);
    // Frame 2: responder forwards the request toward the peer.
    let mut ies2 = imsi.clone();
    ies2.extend_from_slice(&fteid_ie(0x0202, SGW));
    ies2.extend_from_slice(&ctx5);
    // Frames 3 and 4: responses carry the answering node's endpoint.
    let mut ies3 = fteid_ie(0x0303, PGW);
    let mut sub3 = ebi_ie(5);
    sub3.extend_from_slice(&fteid_ie(0x0321, PGW));
    ies3.extend_from_slice(&bearer_ctx(&sub3));
    let mut ies4 = fteid_ie(0x0404, SGW);
    let mut sub4 = ebi_ie(5);
    sub4.extend_from_slice(&fteid_ie(0x0132, SGW));
    ies4.extend_from_slice(&bearer_ctx(&sub4));
    // Modify-bearer frames carry the linked bearer in a bearer context.
    let ies5 = ctx5.clone();
    let ies6 = ctx5.clone();
    // Create-bearer frames: linked bearer id 5 plus three new bearers.
    let mut cbr = ebi_ie(5);
    let mut sub9 = ebi_ie(9);
    sub9.extend_from_slice(&fteid_ie(0x0901, PGW));
    let sub10 = ebi_ie(10);
    let sub11 = ebi_ie(11);
    cbr.extend_from_slice(&bearer_ctx(&sub9));
    cbr.extend_from_slice(&bearer_ctx(&sub10));
    cbr.extend_from_slice(&bearer_ctx(&sub11));
    vec![
        gtp_frame(MME, SGW, 2123, 32, 0, 1, &ies1),
        gtp_frame(SGW, PGW, 2123, 32, 0, 2, &ies2),
        gtp_frame(PGW, SGW, 2123, 33, 0x0202, 2, &ies3),
        gtp_frame(SGW, MME, 2123, 33, 0x0101, 1, &ies4),
        gtp_frame(MME, SGW, 2123, 34, 0x0404, 5, &ies5),
        gtp_frame(SGW, MME, 2123, 35, 0, 5, &ies6),
        gtp_frame(PGW, SGW, 2123, 95, 0x0303, 7, &cbr),
        gtp_frame(SGW, MME, 2123, 95, 0x0404, 8, &cbr),
        gtp_frame(MME, SGW, 2123, 96, 0x0404, 1, &cbr),
        gtp_frame(SGW, PGW, 2123, 96, 0x0303, 2, &cbr),
        gtp_frame(PGW, SGW, 2123, 99, 0x0303, 11, &ebi_ie(10)),
        gtp_frame(SGW, MME, 2123, 99, 0x0404, 12, &ebi_ie(10)),
        gtp_frame(MME, SGW, 2123, 100, 0x0404, 1, &bearer_ctx(&ebi_ie(10))),
        gtp_frame(SGW, PGW, 2123, 100, 0x0303, 2, &bearer_ctx(&ebi_ie(10))),
        gtp_frame(MME, SGW, 2123, 36, 0x0404, 15, &[]),
        gtp_frame(SGW, PGW, 2123, 36, 0x0303, 16, &[]),
        gtp_frame(PGW, SGW, 2123, 37, 0x0202, 16, &[]),
        gtp_frame(SGW, MME, 2123, 37, 0x0101, 15, &[]),
    ]
}

#[test]
fn end_to_end_full_flow() {
    let packets = packets_of(session_frames());
    let flow = make_call_flow(packets, 1).expect("reconstruction");
    assert_eq!(flow.len(), 18);
    for (k, cf) in flow.iter().enumerate() {
        assert_eq!(cf.id, k + 1);
    }
    assert_eq!(flow[0].message, "Create Session Request");
    assert_eq!(flow[0].src_addr, "10.10.2.72");
    assert_eq!(flow[0].dst_addr, "10.10.1.71");
    assert_eq!(flow[2].message, "Create Session Response");
    assert_eq!(flow[4].message, "Modify Bearer Request");
    assert_eq!(flow[4].bearer.lbi, 5);
    assert_eq!(flow[8].message, "Create Bearer Response");
    assert_eq!(flow[8].bearer.lbi, 5);
    assert_eq!(flow[8].bearer.ebi, vec![9, 10, 11]);
    assert_eq!(flow[17].message, "Delete Session Response");
}

#[test]
fn end_to_end_three_nodes_discovered() {
    let packets = packets_of(session_frames());
    let target = TargetInfo {
        tuple: Ip5Tuple::new(),
        teid: 0,
        imsi: String::from("1234"),
    };
    let mut nodes: Vec<NodeInfo> = Vec::new();
    let kept = senario_analysis(target, packets, &mut nodes).expect("scenario");
    assert_eq!(kept.len(), 18);
    assert_eq!(nodes.len(), 3);
    assert!(nodes[0].status > 0 && nodes[1].status > 0 && nodes[2].status > 0);
    // Initiator, responder, peer in that order.
    assert_eq!(nodes[0].addr, u32::from_be_bytes(MME));
    assert_eq!(nodes[1].addr, u32::from_be_bytes(SGW));
    assert_eq!(nodes[2].addr, u32::from_be_bytes(PGW));
}

#[test]
fn non_matching_traffic_never_included() {
    // Interleaves a second session with the same addresses but a
    // different subscriber and disjoint tunnel ids.
    let frames = session_frames();
    let other_imsi = imsi_ie(&[0x87, 0x65]);
    let mut other1 = other_imsi.clone();
    other1.extend_from_slice(&fteid_ie(0x5501, MME));
    let alien = vec![
        gtp_frame(MME, SGW, 2123, 32, 0, 0x40, &other1),
        gtp_frame(MME, SGW, 2123, 34, 0x5555, 0x41, &[]),
        gtp_frame(SGW, MME, 2123, 35, 0x5501, 0x42, &[]),
    ];
    let mut mixed = Vec::new();
    for (i, f) in frames.iter().enumerate() {
        mixed.push(f.clone());
        if i % 6 == 0 {
            mixed.push(alien[(i / 6) % 3].clone());
        }
    }
    let packets = packets_of(mixed);
    // The seed (frame 1) is the true session's first request.
    let flow = make_call_flow(packets, 1).expect("reconstruction");
    assert_eq!(flow.len(), 18);
    // The alien frames sit at positions 2, 9 and 16 of the mixed capture;
    // none of them may appear in the result.
    let ids: Vec<usize> = flow.iter().map(|cf| cf.id).collect();
    assert!(!ids.contains(&2));
    assert!(!ids.contains(&9));
    assert!(!ids.contains(&16));
}

#[test]
fn seed_not_found() {
    let frames = session_frames();
    let n = frames.len();
    let packets = packets_of(frames);
    let err = make_call_flow(packets, n + 10).unwrap_err();
    assert_eq!(err, "Packet not found");
}

#[test]
fn seed_zero_not_found() {
    let packets = packets_of(session_frames());
    let err = make_call_flow(packets, 0).unwrap_err();
    assert_eq!(err, "Packet not found");
}

#[test]
fn no_gtp_frames_in_capture() {
    // P8: only non-tunneling traffic (DNS port).
    let frames = vec![
        gtp_frame(MME, SGW, 53, 32, 0, 1, &[]),
        gtp_frame(SGW, MME, 53, 33, 0, 1, &[]),
    ];
    let packets = packets_of(frames);
    let err = make_call_flow(packets, 1).unwrap_err();
    assert_eq!(err, "No GTP packets in pcap file");
}

#[test]
fn no_packets_matched() {
    // A lone response frame: nothing establishes the topology, so nothing
    // matches.
    let frames = vec![gtp_frame(SGW, MME, 2123, 33, 7, 1, &[])];
    let packets = packets_of(frames);
    let err = make_call_flow(packets, 1).unwrap_err();
    assert_eq!(err, "No packets matched the 5-tuple");
}

#[test]
fn coarse_filter_keeps_only_tunneling_frames() {
    let keep = gtp_frame(MME, SGW, 2123, 32, 0, 1, &[]);
    let drop_port = gtp_frame(MME, SGW, 53, 32, 0, 1, &[]);
    let mut drop_proto = gtp_frame(MME, SGW, 2123, 32, 0, 1, &[]);
    drop_proto[23] = 6;
    let packets = packets_of(vec![keep.clone(), drop_port, drop_proto]);
    assert!(check_gtp(&packets[0]));
    assert!(!check_gtp(&packets[1]));
    assert!(!check_gtp(&packets[2]));
    let kept = filtered_as_gtp(packets).expect("one frame passes");
    assert_eq!(kept.len(), 1);
    assert_eq!(kept[0].idx, 1);
}

#[test]
fn filter_by_imsi_keeps_matching_frames() {
    let with = gtp_frame(MME, SGW, 2123, 32, 0, 1, &imsi_ie(&[0x21, 0x43]));
    let without = gtp_frame(MME, SGW, 2123, 32, 0, 2, &imsi_ie(&[0x87, 0x65]));
    let packets = packets_of(vec![with, without]);
    let kept = filter_by_imsi(&String::from("1234"), packets);
    assert_eq!(kept.len(), 1);
    assert_eq!(kept[0].idx, 1);
}

#[test]
fn filter_by_teid_matches_header_field() {
    let a = gtp_frame(MME, SGW, 2123, 32, 0x1111, 1, &[]);
    let b = gtp_frame(MME, SGW, 2123, 32, 0x2222, 2, &[]);
    let packets = packets_of(vec![a, b]);
    let kept = filter_by_teid(0x2222, packets);
    assert_eq!(kept.len(), 1);
    assert_eq!(kept[0].idx, 2);
}

#[test]
fn filter_by_5tuple_is_direction_agnostic() {
    let fwd = gtp_frame(MME, SGW, 2123, 32, 0, 1, &[]);
    let rev = gtp_frame(SGW, MME, 2123, 33, 0, 1, &[]);
    let other = gtp_frame(PGW, SGW, 2123, 32, 0, 1, &[]);
    let tuple = Ip5Tuple {
        protocol: 17,
        src_addr: u32::from_be_bytes(MME),
        dst_addr: u32::from_be_bytes(SGW),
        src_port: 2123,
        dst_port: 2123,
    };
    let packets = packets_of(vec![fwd, rev, other]);
    let kept = filter_by_5tuple(tuple, packets).expect("two frames match");
    assert_eq!(kept.len(), 2);
    assert_eq!(kept[0].idx, 1);
    assert_eq!(kept[1].idx, 2);
}

#[test]
fn scenario_step_rejects_unknown_traffic_without_state_change() {
    let mut init = NodeInfo::new();
    let mut resp = NodeInfo::new();
    let mut third = NodeInfo::new();
    let tuple = Ip5Tuple {
        protocol: 17,
        src_addr: 0x01020304,
        dst_addr: 0x05060708,
        src_port: 1000,
        dst_port: 2123,
    };
    // A modify-bearer request before any session was seen.
    let accepted = scenario_step(
        &mut init,
        &mut resp,
        &mut third,
        34,
        7,
        0x9999,
        0,
        &tuple,
        &String::from("1234"),
        &String::from("1234"),
    );
    assert!(!accepted);
    assert_eq!(init.status, 0);
    assert_eq!(resp.status, 0);
    assert_eq!(third.status, 0);
}

#[test]
fn two_node_flow_yields_two_nodes() {
    // A session that never reaches a third party: creation and teardown
    // between initiator and responder only.
    let imsi = imsi_ie(&[0x21, 0x43]);
    let mut ies1 = imsi.clone();
    ies1.extend_from_slice(&fteid_ie(0x0101, MME));
    let mut ies2 = fteid_ie(0x0404, SGW);
    ies2.extend_from_slice(&bearer_ctx(&ebi_ie(5)));
    let frames = vec![
        gtp_frame(MME, SGW, 2123, 32, 0, 1, &ies1),
        gtp_frame(SGW, MME, 2123, 33, 0x0101, 1, &ies2),
    ];
    let packets = packets_of(frames);
    let target = TargetInfo { tuple: Ip5Tuple::new(), teid: 0, imsi: String::from("1234") };
    let mut nodes: Vec<NodeInfo> = Vec::new();
    let kept = senario_analysis(target, packets, &mut nodes).expect("scenario");
    assert_eq!(kept.len(), 2);
    assert_eq!(nodes.len(), 2);
    assert_eq!(nodes[0].session.my_s11_teid, 0x0101);
    assert_eq!(nodes[1].session.my_s11_teid, 0x0404);
    assert_eq!(nodes[0].session.imsi, "1234");
}

#[test]
fn downlink_data_notification_and_acknowledgement() {
    let imsi = imsi_ie(&[0x21, 0x43]);
    let mut ies1 = imsi.clone();
    ies1.extend_from_slice(&fteid_ie(0x0101, MME));
    let ies2 = fteid_ie(0x0404, SGW);
    let frames = vec![
        gtp_frame(MME, SGW, 2123, 32, 0, 1, &ies1),
        gtp_frame(SGW, MME, 2123, 33, 0x0101, 1, &ies2),
        // Notification toward the initiator, against its tunnel id.
        gtp_frame(SGW, MME, 2123, 176, 0x0101, 21, &[]),
        // Acknowledgement back, against the responder's tunnel id and the
        // sequence number the notification installed.
        gtp_frame(MME, SGW, 2123, 177, 0x0404, 21, &[]),
        // A stale acknowledgement with the wrong sequence number is not
        // part of the flow.
        gtp_frame(MME, SGW, 2123, 177, 0x0404, 99, &[]),
    ];
    let packets = packets_of(frames);
    let flow = make_call_flow(packets, 1).expect("reconstruction");
    let ids: Vec<usize> = flow.iter().map(|cf| cf.id).collect();
    assert_eq!(ids, vec![1, 2, 3, 4]);
    assert_eq!(flow[2].message, "Downlink Data Notification");
    assert_eq!(flow[3].message, "Downlink Data Notification Acknowledge");
}

#[test]
fn materializer_defaults_empty_bearer_fields() {
    // Frames without bearer contexts yield empty bearer summaries rather
    // than failing.
    let imsi = imsi_ie(&[0x21, 0x43]);
    let mut ies1 = imsi.clone();
    ies1.extend_from_slice(&fteid_ie(0x0101, MME));
    let frames = vec![gtp_frame(MME, SGW, 2123, 32, 0, 1, &ies1)];
    let packets = packets_of(frames);
    let flow = make_call_flow(packets, 1).expect("reconstruction");
    assert_eq!(flow.len(), 1);
    assert_eq!(flow[0].bearer.lbi, 0);
    assert!(flow[0].bearer.ebi.is_empty());
    assert_eq!(flow[0].bearer.ip, "");
    assert_eq!(flow[0].timestamp, "");
}

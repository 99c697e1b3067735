//! Call-flow reconstruction: classifies every tunneling-protocol frame of a
//! capture as belonging or not belonging to one seed session, growing a
//! two-or-three-node topology model as the flow is observed.
//!
//! Each node carries the sequence number and tunnel id it expects on the
//! next inbound message; every acceptance consumes that expectation and
//! installs the next one.  Frames that do not match the current
//! expectations are silently skipped, never queued.

use vstd::prelude::*;

use crate::addr::{ipv4_text, spec_ipv4_text};
use crate::gtp::{
    get_gtp_hdr_len, get_gtp_header, get_gtp_teid, get_msg_type_from_gtpc, spec_gtp_hdr_len,
    spec_gtp_header, spec_t_flag, spec_whole_msg_ok,
};
use crate::gtp_ie::{
    find_ie_ebi, find_ie_fteid, find_ie_imsi, parse_all_ies, spec_bcd, spec_fteid_list_from,
    spec_fteid_ok, spec_fteids_ok_from, spec_first_ie, spec_first_ie_from, spec_ie_frames,
    spec_ies_match_hard, GtpIe, GtpIeValue, IeFrame, MAX_IE_DEPTH,
};
use crate::gtpv2_types::{
    spec_msg_type_name, GTPV2C_BEARER_RESOURCE_CMD, GTPV2C_CREATE_BEARER_REQ,
    GTPV2C_CREATE_BEARER_RSP, GTPV2C_CREATE_SESSION_REQ, GTPV2C_CREATE_SESSION_RSP,
    GTPV2C_DELETE_BEARER_CMD, GTPV2C_DELETE_BEARER_REQ, GTPV2C_DELETE_BEARER_RSP,
    GTPV2C_DELETE_SESSION_REQ, GTPV2C_DELETE_SESSION_RSP, GTPV2C_DOWNLINK_DATA_NOTIFICATION,
    GTPV2C_DOWNLINK_DATA_NOTIFICATION_ACK, GTPV2C_IE_BEARER_CONTEXT, GTPV2C_IE_EBI,
    GTPV2C_IE_FTEID, GTPV2C_IE_IMSI, GTPV2C_MODIFY_BEARER_CMD, GTPV2C_MODIFY_BEARER_REQ,
    GTPV2C_MODIFY_BEARER_RSP, GTPV2C_RELEASE_ACCESS_BEARERS_REQ, GTPV2C_RELEASE_ACCESS_BEARERS_RSP,
    GTPV2C_UPDATE_BEARER_REQ, GTPV2C_UPDATE_BEARER_RSP,
};
use crate::types::{be16, be32, read_be16, read_be32, PROTO_TYPE_UDP, WELLKNOWN_PORT_GTPV2};

verus! {

/// Per-bearer summary of one call-flow record: linked bearer id, the
/// per-bearer ids, and the tunnel endpoint's IPv4 text address.
#[derive(Debug)]
pub struct Bearer {
    pub lbi: u8,
    pub ebi: Vec<u8>,
    pub ip: String,
}

impl Bearer {
    /// An empty bearer summary.
    pub fn new() -> (r: Bearer)
        ensures
            r.lbi == 0,
            r.ebi@.len() == 0,
            r.ip@.len() == 0,
    {
        Bearer { lbi: 0, ebi: Vec::new(), ip: String::new() }
    }
}

/// One record of the reconstructed call flow.
#[derive(Debug)]
pub struct CallFlow {
    pub id: usize,
    pub timestamp: String,
    pub src_addr: String,
    pub dst_addr: String,
    pub message: String,
    pub bearer: Bearer,
}

impl CallFlow {
    /// An empty record.
    pub fn new() -> (r: CallFlow)
        ensures
            r.id == 0,
            r.timestamp@.len() == 0,
            r.src_addr@.len() == 0,
            r.dst_addr@.len() == 0,
            r.message@.len() == 0,
            r.bearer.lbi == 0,
            r.bearer.ebi@.len() == 0,
            r.bearer.ip@.len() == 0,
    {
        CallFlow {
            id: 0,
            timestamp: String::new(),
            src_addr: String::new(),
            dst_addr: String::new(),
            message: String::new(),
            bearer: Bearer::new(),
        }
    }
}

/// Flow-identifying key of one frame: protocol, addresses and ports.
/// Addresses are IPv4 values in big-endian 32-bit form.
#[derive(Clone, Copy, Debug)]
pub struct Ip5Tuple {
    pub protocol: u8,
    pub src_addr: u32,
    pub dst_addr: u32,
    pub src_port: u16,
    pub dst_port: u16,
}

impl Ip5Tuple {
    /// The all-zero tuple, meaning "not a flow this crate understands".
    pub fn new() -> (r: Ip5Tuple)
        ensures
            r == spec_zero_tuple(),
    {
        Ip5Tuple { protocol: 0, src_addr: 0, dst_addr: 0, src_port: 0, dst_port: 0 }
    }
}

/// The all-zero tuple.
pub open spec fn spec_zero_tuple() -> Ip5Tuple {
    Ip5Tuple { protocol: 0u8, src_addr: 0u32, dst_addr: 0u32, src_port: 0u16, dst_port: 0u16 }
}

/// One raw frame of a capture: its 1-based index in capture order, its
/// bytes, and the information elements decoded from it once the state
/// machine has seen it.
#[derive(Debug)]
pub struct OwnedPacket {
    pub idx: usize,
    pub data: Vec<u8>,
    pub ies: Vec<GtpIe>,
}

/// Per-node session state: subscriber identity and the four tunnel-id
/// slots.  A slot is zero until set; an update passes zero to leave a
/// slot unchanged, so a nonzero slot is never reset.
#[derive(Debug)]
pub struct SessCtxInfo {
    pub imsi: String,
    pub my_s11_teid: u32,
    pub my_s5s8_teid: u32,
    pub peer_s11_teid: u32,
    pub peer_s5s8_teid: u32,
}

impl SessCtxInfo {
    /// All slots unknown.
    pub fn new() -> (r: SessCtxInfo)
        ensures
            r.imsi@ == Seq::<char>::empty(),
            r.my_s11_teid == 0,
            r.my_s5s8_teid == 0,
            r.peer_s11_teid == 0,
            r.peer_s5s8_teid == 0,
    {
        SessCtxInfo {
            imsi: String::new(),
            my_s11_teid: 0,
            my_s5s8_teid: 0,
            peer_s11_teid: 0,
            peer_s5s8_teid: 0,
        }
    }
}

/// One participant of the reconstructed topology: address, port, the two
/// per-interface sequence counters, a status counter (zero until the node
/// is first seen), and its session state.
#[derive(Debug)]
pub struct NodeInfo {
    pub addr: u32,
    pub port: u16,
    pub s11_seq: u32,
    pub s5s8_seq: u32,
    pub status: u64,
    pub session: SessCtxInfo,
}

impl NodeInfo {
    /// A node not yet seen.
    pub fn new() -> (r: NodeInfo)
        ensures
            node_view(r) == spec_zero_node(),
    {
        NodeInfo { addr: 0, port: 0, s11_seq: 0, s5s8_seq: 0, status: 0, session: SessCtxInfo::new() }
    }
}

/// The immutable seed descriptor of one reconstruction run.
#[derive(Debug)]
pub struct TargetInfo {
    pub tuple: Ip5Tuple,
    pub teid: u32,
    pub imsi: String,
}

/// Mathematical view of one node: its plain fields with the session
/// flattened and the subscriber identity as a character sequence.
pub struct NodeV {
    pub addr: u32,
    pub port: u16,
    pub s11_seq: u32,
    pub s5s8_seq: u32,
    pub status: nat,
    pub imsi: Seq<char>,
    pub my_s11_teid: u32,
    pub my_s5s8_teid: u32,
    pub peer_s11_teid: u32,
    pub peer_s5s8_teid: u32,
}

/// View of a node.
pub open spec fn node_view(n: NodeInfo) -> NodeV {
    NodeV {
        addr: n.addr,
        port: n.port,
        s11_seq: n.s11_seq,
        s5s8_seq: n.s5s8_seq,
        status: n.status as nat,
        imsi: n.session.imsi@,
        my_s11_teid: n.session.my_s11_teid,
        my_s5s8_teid: n.session.my_s5s8_teid,
        peer_s11_teid: n.session.peer_s11_teid,
        peer_s5s8_teid: n.session.peer_s5s8_teid,
    }
}

/// A node not yet seen.
pub open spec fn spec_zero_node() -> NodeV {
    NodeV {
        addr: 0u32,
        port: 0u16,
        s11_seq: 0u32,
        s5s8_seq: 0u32,
        status: 0nat,
        imsi: Seq::<char>::empty(),
        my_s11_teid: 0u32,
        my_s5s8_teid: 0u32,
        peer_s11_teid: 0u32,
        peer_s5s8_teid: 0u32,
    }
}

/// The three-node topology model.
pub struct StateV {
    pub init: NodeV,
    pub resp: NodeV,
    pub third: NodeV,
}

/// The topology before any frame was seen.
pub open spec fn spec_zero_state() -> StateV {
    StateV { init: spec_zero_node(), resp: spec_zero_node(), third: spec_zero_node() }
}

/// What the state machine reads off one frame: message type, sequence
/// number, tunnel id, the first tunnel-endpoint descriptor's tunnel id,
/// the 5-tuple, and the subscriber identity.
pub struct EventV {
    pub msg_type: u8,
    pub seq: u32,
    pub teid: u32,
    pub fteid: u32,
    pub tuple: Ip5Tuple,
    pub imsi: Seq<char>,
}

/// Node initialization: status becomes one, address and port are taken
/// from the frame, a nonzero sequence number is installed, and the
/// subscriber identity is recorded.  Tunnel-id slots are untouched.
pub open spec fn spec_init_node(
    n: NodeV,
    addr: u32,
    port: u16,
    s11_seq: u32,
    s5s8_seq: u32,
    imsi: Seq<char>,
) -> NodeV {
    NodeV {
        addr,
        port,
        s11_seq: if s11_seq > 0 {
            s11_seq
        } else {
            n.s11_seq
        },
        s5s8_seq: if s5s8_seq > 0 {
            s5s8_seq
        } else {
            n.s5s8_seq
        },
        status: 1nat,
        imsi,
        ..n
    }
}

/// Tunnel-id installation: each nonzero argument is written into its
/// slot; zero arguments leave the slot unchanged.
pub open spec fn spec_init_fteid(
    n: NodeV,
    my_s11_teid: u32,
    my_s5s8_teid: u32,
    peer_s11_teid: u32,
    peer_s5s8_teid: u32,
) -> NodeV {
    NodeV {
        my_s11_teid: if my_s11_teid > 0 {
            my_s11_teid
        } else {
            n.my_s11_teid
        },
        my_s5s8_teid: if my_s5s8_teid > 0 {
            my_s5s8_teid
        } else {
            n.my_s5s8_teid
        },
        peer_s11_teid: if peer_s11_teid > 0 {
            peer_s11_teid
        } else {
            n.peer_s11_teid
        },
        peer_s5s8_teid: if peer_s5s8_teid > 0 {
            peer_s5s8_teid
        } else {
            n.peer_s5s8_teid
        },
        ..n
    }
}

/// Node advance: the status counter grows by exactly one, and each
/// nonzero argument is installed; zero arguments leave fields unchanged.
pub open spec fn spec_update_node(
    n: NodeV,
    s11_seq: u32,
    s5s8_seq: u32,
    my_s11_teid: u32,
    my_s5s8_teid: u32,
    peer_s11_teid: u32,
    peer_s5s8_teid: u32,
) -> NodeV {
    NodeV {
        status: n.status + 1,
        s11_seq: if s11_seq > 0 {
            s11_seq
        } else {
            n.s11_seq
        },
        s5s8_seq: if s5s8_seq > 0 {
            s5s8_seq
        } else {
            n.s5s8_seq
        },
        my_s11_teid: if my_s11_teid > 0 {
            my_s11_teid
        } else {
            n.my_s11_teid
        },
        my_s5s8_teid: if my_s5s8_teid > 0 {
            my_s5s8_teid
        } else {
            n.my_s5s8_teid
        },
        peer_s11_teid: if peer_s11_teid > 0 {
            peer_s11_teid
        } else {
            n.peer_s11_teid
        },
        peer_s5s8_teid: if peer_s5s8_teid > 0 {
            peer_s5s8_teid
        } else {
            n.peer_s5s8_teid
        },
        ..n
    }
}

/// Whether a node sits at exactly this address and port.
pub open spec fn spec_check_node(n: NodeV, addr: u32, port: u16) -> bool {
    n.addr == addr && n.port == port
}

/// Whether a node's address and port occur in the tuple, in either
/// direction.
pub open spec fn spec_match_node(n: NodeV, t: Ip5Tuple) -> bool {
    (n.addr == t.src_addr || n.addr == t.dst_addr) && (n.port == t.src_port || n.port
        == t.dst_port)
}

/// One step of the scenario state machine: given the topology and one
/// frame's event, yields the next topology and whether the frame belongs
/// to the flow.  This is the complete per-message-type matching rule
/// table.
pub open spec fn spec_step(st: StateV, ev: EventV, target_imsi: Seq<char>) -> (StateV, bool) {
    let m = ev.msg_type;
    let t = ev.tuple;
    if m == GTPV2C_CREATE_SESSION_REQ {
        if ev.imsi != target_imsi {
            (st, false)
        } else if st.init.status == 0 {
            let init2 = spec_init_fteid(
                spec_init_node(st.init, t.src_addr, t.src_port, ev.seq, 0, ev.imsi),
                ev.fteid,
                0,
                0,
                0,
            );
            let resp2 = spec_init_fteid(
                spec_init_node(st.resp, t.dst_addr, t.dst_port, 0, 0, ev.imsi),
                0,
                0,
                ev.fteid,
                0,
            );
            (StateV { init: init2, resp: resp2, third: st.third }, true)
        } else if st.init.status == 1 && st.resp.status == 1 {
            if st.resp.addr == t.src_addr && t.dst_addr != st.init.addr {
                let third2 = spec_init_fteid(
                    spec_init_node(st.third, t.dst_addr, t.dst_port, 0, ev.seq, ev.imsi),
                    0,
                    0,
                    0,
                    ev.fteid,
                );
                let resp2 = spec_update_node(st.resp, 0, ev.seq, 0, ev.fteid, 0, 0);
                (StateV { init: st.init, resp: resp2, third: third2 }, true)
            } else {
                (st, false)
            }
        } else {
            (st, false)
        }
    } else if m == GTPV2C_CREATE_SESSION_RSP {
        if st.init.status == 0 {
            (st, false)
        } else if st.third.status == 1 {
            if spec_match_node(st.third, t) && spec_match_node(st.resp, t) && st.resp.s5s8_seq
                == ev.seq && st.resp.my_s5s8_teid == ev.teid {
                let third2 = spec_update_node(st.third, 0, ev.seq, 0, ev.fteid, 0, 0);
                let resp2 = spec_update_node(st.resp, 0, 0, 0, 0, 0, ev.fteid);
                (StateV { init: st.init, resp: resp2, third: third2 }, true)
            } else {
                (st, false)
            }
        } else if st.init.status == 1 {
            if spec_match_node(st.resp, t) && spec_match_node(st.init, t) && st.init.s11_seq
                == ev.seq && st.init.my_s11_teid == ev.teid {
                let resp2 = spec_update_node(st.resp, ev.seq, 0, ev.fteid, 0, 0, 0);
                let init2 = spec_update_node(st.init, 0, 0, 0, 0, ev.fteid, 0);
                (StateV { init: init2, resp: resp2, third: st.third }, true)
            } else {
                (st, false)
            }
        } else {
            (st, false)
        }
    } else if m == GTPV2C_MODIFY_BEARER_CMD || m == GTPV2C_DELETE_BEARER_CMD || m
        == GTPV2C_BEARER_RESOURCE_CMD || m == GTPV2C_MODIFY_BEARER_REQ || m
        == GTPV2C_RELEASE_ACCESS_BEARERS_REQ {
        if st.init.status <= 1 {
            (st, false)
        } else if spec_check_node(st.init, t.src_addr, t.src_port) {
            if st.resp.my_s11_teid == ev.teid {
                (
                    StateV {
                        init: spec_update_node(st.init, ev.seq, 0, 0, 0, 0, 0),
                        resp: st.resp,
                        third: st.third,
                    },
                    true,
                )
            } else {
                (st, false)
            }
        } else if spec_check_node(st.resp, t.src_addr, t.src_port) {
            if st.third.status > 0 && spec_check_node(st.third, t.dst_addr, t.dst_port) {
                if st.third.my_s5s8_teid == ev.teid {
                    (
                        StateV {
                            init: st.init,
                            resp: spec_update_node(st.resp, 0, ev.seq, 0, 0, 0, 0),
                            third: st.third,
                        },
                        true,
                    )
                } else {
                    (st, false)
                }
            } else if spec_check_node(st.init, t.dst_addr, t.dst_port) {
                if st.init.my_s11_teid == ev.teid {
                    (
                        StateV {
                            init: st.init,
                            resp: spec_update_node(st.resp, ev.seq, 0, 0, 0, 0, 0),
                            third: st.third,
                        },
                        true,
                    )
                } else {
                    (st, false)
                }
            } else {
                (st, false)
            }
        } else if st.third.status > 0 && spec_check_node(st.third, t.src_addr, t.src_port) {
            if st.resp.my_s5s8_teid == ev.teid {
                (
                    StateV {
                        init: st.init,
                        resp: st.resp,
                        third: spec_update_node(st.third, 0, ev.seq, 0, 0, 0, 0),
                    },
                    true,
                )
            } else {
                (st, false)
            }
        } else {
            (st, false)
        }
    } else if m == GTPV2C_MODIFY_BEARER_RSP || m == GTPV2C_RELEASE_ACCESS_BEARERS_RSP {
        if st.init.status <= 1 {
            (st, false)
        } else if spec_check_node(st.init, t.dst_addr, t.dst_port) {
            (st, st.init.s11_seq == ev.seq)
        } else if spec_match_node(st.resp, t) {
            if st.third.status > 0 && spec_check_node(st.third, t.src_addr, t.src_port) {
                (st, st.resp.s5s8_seq == ev.seq)
            } else {
                (st, false)
            }
        } else if spec_check_node(st.init, t.src_addr, t.src_port) {
            (st, st.resp.s11_seq == ev.seq)
        } else {
            (st, false)
        }
    } else if m == GTPV2C_DOWNLINK_DATA_NOTIFICATION {
        if st.init.status <= 1 {
            (st, false)
        } else if spec_check_node(st.init, t.dst_addr, t.dst_port) && spec_check_node(
            st.resp,
            t.src_addr,
            t.src_port,
        ) && st.init.my_s11_teid == ev.teid {
            (
                StateV {
                    init: st.init,
                    resp: spec_update_node(st.resp, ev.seq, 0, 0, 0, 0, 0),
                    third: st.third,
                },
                true,
            )
        } else {
            (st, false)
        }
    } else if m == GTPV2C_DOWNLINK_DATA_NOTIFICATION_ACK {
        if st.init.status == 0 {
            (st, false)
        } else {
            (
                st,
                spec_check_node(st.init, t.src_addr, t.src_port) && spec_check_node(
                    st.resp,
                    t.dst_addr,
                    t.dst_port,
                ) && st.resp.my_s11_teid == ev.teid && st.resp.s11_seq == ev.seq,
            )
        }
    } else if m == GTPV2C_CREATE_BEARER_REQ || m == GTPV2C_UPDATE_BEARER_REQ || m
        == GTPV2C_DELETE_BEARER_REQ {
        if st.init.status <= 1 {
            (st, false)
        } else if spec_check_node(st.resp, t.dst_addr, t.dst_port) && spec_check_node(
            st.third,
            t.src_addr,
            t.src_port,
        ) {
            if st.third.my_s5s8_teid == ev.teid {
                (
                    StateV {
                        init: spec_update_node(st.init, ev.seq, 0, 0, 0, 0, 0),
                        resp: st.resp,
                        third: st.third,
                    },
                    true,
                )
            } else {
                (st, false)
            }
        } else if spec_check_node(st.init, t.dst_addr, t.dst_port) && spec_check_node(
            st.resp,
            t.src_addr,
            t.src_port,
        ) {
            if st.resp.my_s11_teid == ev.teid {
                (
                    StateV {
                        init: st.init,
                        resp: spec_update_node(st.resp, 0, ev.seq, 0, 0, 0, 0),
                        third: st.third,
                    },
                    true,
                )
            } else {
                (st, false)
            }
        } else {
            (st, false)
        }
    } else if m == GTPV2C_CREATE_BEARER_RSP || m == GTPV2C_UPDATE_BEARER_RSP || m
        == GTPV2C_DELETE_BEARER_RSP {
        if st.init.status <= 1 {
            (st, false)
        } else if spec_check_node(st.resp, t.dst_addr, t.dst_port) {
            (st, st.resp.s11_seq == ev.seq && st.resp.my_s11_teid == ev.teid)
        } else if st.third.status > 0 && spec_check_node(st.third, t.dst_addr, t.dst_port) {
            (st, st.third.s5s8_seq == ev.seq && st.third.my_s5s8_teid == ev.teid)
        } else {
            (st, false)
        }
    } else if m == GTPV2C_DELETE_SESSION_REQ {
        if st.init.status <= 1 {
            (st, false)
        } else if spec_check_node(st.init, t.src_addr, t.src_port) {
            if st.resp.my_s11_teid == ev.teid {
                (
                    StateV {
                        init: spec_update_node(st.init, ev.seq, 0, 0, 0, 0, 0),
                        resp: st.resp,
                        third: st.third,
                    },
                    true,
                )
            } else {
                (st, false)
            }
        } else if spec_check_node(st.resp, t.src_addr, t.src_port) {
            if st.third.my_s5s8_teid == ev.teid {
                (
                    StateV {
                        init: st.init,
                        resp: spec_update_node(st.resp, 0, ev.seq, 0, 0, 0, 0),
                        third: st.third,
                    },
                    true,
                )
            } else {
                (st, false)
            }
        } else {
            (st, false)
        }
    } else if m == GTPV2C_DELETE_SESSION_RSP {
        if st.init.status == 0 {
            (st, false)
        } else if st.third.status > 0 && spec_check_node(st.resp, t.dst_addr, t.dst_port)
            && spec_check_node(st.third, t.src_addr, t.src_port) {
            (st, st.resp.my_s5s8_teid == ev.teid && st.resp.s5s8_seq == ev.seq)
        } else if spec_check_node(st.init, t.dst_addr, t.dst_port) && spec_check_node(
            st.resp,
            t.src_addr,
            t.src_port,
        ) {
            (st, st.init.my_s11_teid == ev.teid && st.init.s11_seq == ev.seq)
        } else {
            (st, false)
        }
    } else {
        (st, false)
    }
}

/// A step that rejects its frame leaves the topology exactly as it was:
/// non-matching traffic never changes any node.
pub proof fn lemma_step_reject_no_change(st: StateV, ev: EventV, target_imsi: Seq<char>)
    ensures
        !spec_step(st, ev, target_imsi).1 ==> spec_step(st, ev, target_imsi).0 == st,
{
}

/// A frame whose subscriber identity differs from the target's and whose
/// address and port correlate with no known node in either direction is
/// never accepted and never changes any node.
pub proof fn lemma_uncorrelated_frame_ignored(st: StateV, ev: EventV, target_imsi: Seq<char>)
    requires
        ev.imsi != target_imsi,
        !spec_match_node(st.init, ev.tuple),
        !spec_match_node(st.resp, ev.tuple),
        !spec_match_node(st.third, ev.tuple),
    ensures
        spec_step(st, ev, target_imsi) == (st, false),
{
    assert(!spec_check_node(st.init, ev.tuple.src_addr, ev.tuple.src_port));
    assert(!spec_check_node(st.resp, ev.tuple.src_addr, ev.tuple.src_port));
    assert(!spec_check_node(st.third, ev.tuple.src_addr, ev.tuple.src_port));
    assert(!spec_check_node(st.init, ev.tuple.dst_addr, ev.tuple.dst_port));
    assert(!spec_check_node(st.resp, ev.tuple.dst_addr, ev.tuple.dst_port));
    assert(!spec_check_node(st.third, ev.tuple.dst_addr, ev.tuple.dst_port));
}

/// A step advances each node's status by at most one.
pub proof fn lemma_step_status_growth(st: StateV, ev: EventV, target_imsi: Seq<char>)
    ensures
        spec_step(st, ev, target_imsi).0.init.status <= st.init.status + 1,
        spec_step(st, ev, target_imsi).0.resp.status <= st.resp.status + 1,
        spec_step(st, ev, target_imsi).0.third.status <= st.third.status + 1,
{
}

/// Installs nonzero tunnel ids into a node's slots; zero arguments leave
/// slots unchanged.
pub fn init_fteid_info(
    node: &mut NodeInfo,
    my_s11_teid: u32,
    my_s5s8_teid: u32,
    peer_s11_teid: u32,
    peer_s5s8_teid: u32,
)
    ensures
        node_view(*final(node)) == spec_init_fteid(
            node_view(*old(node)),
            my_s11_teid,
            my_s5s8_teid,
            peer_s11_teid,
            peer_s5s8_teid,
        ),
{
    if my_s11_teid > 0 {
        node.session.my_s11_teid = my_s11_teid;
    }
    if my_s5s8_teid > 0 {
        node.session.my_s5s8_teid = my_s5s8_teid;
    }
    if peer_s11_teid > 0 {
        node.session.peer_s11_teid = peer_s11_teid;
    }
    if peer_s5s8_teid > 0 {
        node.session.peer_s5s8_teid = peer_s5s8_teid;
    }
}

/// Initializes a node as just seen: status one, the frame's address and
/// port, any nonzero sequence numbers, and the subscriber identity.
pub fn init_node_info(
    node: &mut NodeInfo,
    addr: u32,
    port: u16,
    msg_type: u8,
    s11_seq: u32,
    s5s8_seq: u32,
    imsi: &String,
)
    ensures
        node_view(*final(node)) == spec_init_node(node_view(*old(node)), addr, port, s11_seq, s5s8_seq, imsi@),
{
    node.status = 1;
    node.addr = addr;
    node.port = port;
    if s11_seq > 0 {
        node.s11_seq = s11_seq;
    }
    if s5s8_seq > 0 {
        node.s5s8_seq = s5s8_seq;
    }
    node.session.imsi = imsi.clone();
}

/// Advances a node by one matched message, installing any nonzero
/// sequence numbers and tunnel ids.
pub fn update_node_info(
    node: &mut NodeInfo,
    s11_seq: u32,
    s5s8_seq: u32,
    my_s11_teid: u32,
    my_s5s8_teid: u32,
    peer_s11_teid: u32,
    peer_s5s8_teid: u32,
)
    requires
        old(node).status < u64::MAX,
    ensures
        node_view(*final(node)) == spec_update_node(
            node_view(*old(node)),
            s11_seq,
            s5s8_seq,
            my_s11_teid,
            my_s5s8_teid,
            peer_s11_teid,
            peer_s5s8_teid,
        ),
{
    node.status = node.status + 1;
    if s11_seq > 0 {
        node.s11_seq = s11_seq;
    }
    if s5s8_seq > 0 {
        node.s5s8_seq = s5s8_seq;
    }
    if my_s11_teid > 0 {
        node.session.my_s11_teid = my_s11_teid;
    }
    if my_s5s8_teid > 0 {
        node.session.my_s5s8_teid = my_s5s8_teid;
    }
    if peer_s11_teid > 0 {
        node.session.peer_s11_teid = peer_s11_teid;
    }
    if peer_s5s8_teid > 0 {
        node.session.peer_s5s8_teid = peer_s5s8_teid;
    }
}

/// Whether the node's gateway-to-gateway tunnel id equals the frame's.
pub fn is_s5s8_teid_match(node: &NodeInfo, teid: u32) -> (r: bool)
    ensures
        r == (node.session.my_s5s8_teid == teid),
{
    node.session.my_s5s8_teid == teid
}

/// Whether the node's control-plane tunnel id equals the frame's.
pub fn is_s11_teid_match(node: &NodeInfo, teid: u32) -> (r: bool)
    ensures
        r == (node.session.my_s11_teid == teid),
{
    node.session.my_s11_teid == teid
}

/// Whether the node's gateway-to-gateway sequence counter equals the
/// frame's sequence number.
pub fn is_s5s8_seq_match(node: &NodeInfo, seq: u32) -> (r: bool)
    ensures
        r == (node.s5s8_seq == seq),
{
    node.s5s8_seq == seq
}

/// Whether the node's control-plane sequence counter equals the frame's
/// sequence number.
pub fn is_s11_seq_match(node: &NodeInfo, seq: u32) -> (r: bool)
    ensures
        r == (node.s11_seq == seq),
{
    node.s11_seq == seq
}

/// Whether the node sits at exactly this address and port.
pub fn check_node(node: &NodeInfo, addr: u32, port: u16) -> (r: bool)
    ensures
        r == spec_check_node(node_view(*node), addr, port),
{
    node.addr == addr && node.port == port
}

/// Whether the node's address and port occur in the tuple, in either
/// direction.
pub fn is_match_node(node: &NodeInfo, tuple: &Ip5Tuple) -> (r: bool)
    ensures
        r == spec_match_node(node_view(*node), *tuple),
{
    (node.addr == tuple.src_addr || node.addr == tuple.dst_addr) && (node.port == tuple.src_port
        || node.port == tuple.dst_port)
}

/// Applies one frame's event to the topology, returning whether the frame
/// belongs to the flow.  Behaves exactly as the transition table
/// `spec_step`.
#[verifier::rlimit(100)]
#[verifier::spinoff_prover]
pub fn scenario_step(
    init_node: &mut NodeInfo,
    resp_node: &mut NodeInfo,
    third_node: &mut NodeInfo,
    msg_type: u8,
    seq: u32,
    teid: u32,
    fteid_teid: u32,
    tuple: &Ip5Tuple,
    imsi: &String,
    target_imsi: &String,
) -> (accepted: bool)
    requires
        old(init_node).status < u64::MAX,
        old(resp_node).status < u64::MAX,
        old(third_node).status < u64::MAX,
    ensures
        ({
            let st = StateV {
                init: node_view(*old(init_node)),
                resp: node_view(*old(resp_node)),
                third: node_view(*old(third_node)),
            };
            let ev = EventV {
                msg_type,
                seq,
                teid,
                fteid: fteid_teid,
                tuple: *tuple,
                imsi: imsi@,
            };
            let (st2, acc) = spec_step(st, ev, target_imsi@);
            node_view(*final(init_node)) == st2.init && node_view(*final(resp_node)) == st2.resp
                && node_view(*final(third_node)) == st2.third && accepted == acc
        }),
{
    if msg_type == GTPV2C_CREATE_SESSION_REQ {
        if !(*imsi == *target_imsi) {
            return false;
        }
        if init_node.status == 0 {
            init_node_info(init_node, tuple.src_addr, tuple.src_port, msg_type, seq, 0, imsi);
            init_fteid_info(init_node, fteid_teid, 0, 0, 0);
            init_node_info(resp_node, tuple.dst_addr, tuple.dst_port, msg_type, 0, 0, imsi);
            init_fteid_info(resp_node, 0, 0, fteid_teid, 0);
            true
        } else if init_node.status == 1 && resp_node.status == 1 {
            if resp_node.addr == tuple.src_addr && tuple.dst_addr != init_node.addr {
                init_node_info(third_node, tuple.dst_addr, tuple.dst_port, msg_type, 0, seq, imsi);
                init_fteid_info(third_node, 0, 0, 0, fteid_teid);
                update_node_info(resp_node, 0, seq, 0, fteid_teid, 0, 0);
                true
            } else {
                false
            }
        } else {
            false
        }
    } else if msg_type == GTPV2C_CREATE_SESSION_RSP {
        if init_node.status == 0 {
            false
        } else if third_node.status == 1 {
            if is_match_node(third_node, tuple) && is_match_node(resp_node, tuple)
                && is_s5s8_seq_match(resp_node, seq) && is_s5s8_teid_match(resp_node, teid) {
                update_node_info(third_node, 0, seq, 0, fteid_teid, 0, 0);
                update_node_info(resp_node, 0, 0, 0, 0, 0, fteid_teid);
                true
            } else {
                false
            }
        } else if init_node.status == 1 {
            if is_match_node(resp_node, tuple) && is_match_node(init_node, tuple)
                && is_s11_seq_match(init_node, seq) && is_s11_teid_match(init_node, teid) {
                update_node_info(resp_node, seq, 0, fteid_teid, 0, 0, 0);
                update_node_info(init_node, 0, 0, 0, 0, fteid_teid, 0);
                true
            } else {
                false
            }
        } else {
            false
        }
    } else if msg_type == GTPV2C_MODIFY_BEARER_CMD || msg_type == GTPV2C_DELETE_BEARER_CMD
        || msg_type == GTPV2C_BEARER_RESOURCE_CMD || msg_type == GTPV2C_MODIFY_BEARER_REQ
        || msg_type == GTPV2C_RELEASE_ACCESS_BEARERS_REQ {
        if init_node.status <= 1 {
            false
        } else if check_node(init_node, tuple.src_addr, tuple.src_port) {
            if is_s11_teid_match(resp_node, teid) {
                update_node_info(init_node, seq, 0, 0, 0, 0, 0);
                true
            } else {
                false
            }
        } else if check_node(resp_node, tuple.src_addr, tuple.src_port) {
            if third_node.status > 0 && check_node(third_node, tuple.dst_addr, tuple.dst_port) {
                if is_s5s8_teid_match(third_node, teid) {
                    update_node_info(resp_node, 0, seq, 0, 0, 0, 0);
                    true
                } else {
                    false
                }
            } else if check_node(init_node, tuple.dst_addr, tuple.dst_port) {
                if is_s11_teid_match(init_node, teid) {
                    update_node_info(resp_node, seq, 0, 0, 0, 0, 0);
                    true
                } else {
                    false
                }
            } else {
                false
            }
        } else if third_node.status > 0 && check_node(third_node, tuple.src_addr, tuple.src_port) {
            if is_s5s8_teid_match(resp_node, teid) {
                update_node_info(third_node, 0, seq, 0, 0, 0, 0);
                true
            } else {
                false
            }
        } else {
            false
        }
    } else if msg_type == GTPV2C_MODIFY_BEARER_RSP || msg_type == GTPV2C_RELEASE_ACCESS_BEARERS_RSP
        {
        if init_node.status <= 1 {
            false
        } else if check_node(init_node, tuple.dst_addr, tuple.dst_port) {
            is_s11_seq_match(init_node, seq)
        } else if is_match_node(resp_node, tuple) {
            if third_node.status > 0 && check_node(third_node, tuple.src_addr, tuple.src_port) {
                is_s5s8_seq_match(resp_node, seq)
            } else {
                false
            }
        } else if check_node(init_node, tuple.src_addr, tuple.src_port) {
            is_s11_seq_match(resp_node, seq)
        } else {
            false
        }
    } else if msg_type == GTPV2C_DOWNLINK_DATA_NOTIFICATION {
        if init_node.status <= 1 {
            false
        } else if check_node(init_node, tuple.dst_addr, tuple.dst_port) && check_node(
            resp_node,
            tuple.src_addr,
            tuple.src_port,
        ) && is_s11_teid_match(init_node, teid) {
            update_node_info(resp_node, seq, 0, 0, 0, 0, 0);
            true
        } else {
            false
        }
    } else if msg_type == GTPV2C_DOWNLINK_DATA_NOTIFICATION_ACK {
        if init_node.status == 0 {
            false
        } else {
            check_node(init_node, tuple.src_addr, tuple.src_port) && check_node(
                resp_node,
                tuple.dst_addr,
                tuple.dst_port,
            ) && is_s11_teid_match(resp_node, teid) && is_s11_seq_match(resp_node, seq)
        }
    } else if msg_type == GTPV2C_CREATE_BEARER_REQ || msg_type == GTPV2C_UPDATE_BEARER_REQ
        || msg_type == GTPV2C_DELETE_BEARER_REQ {
        if init_node.status <= 1 {
            false
        } else if check_node(resp_node, tuple.dst_addr, tuple.dst_port) && check_node(
            third_node,
            tuple.src_addr,
            tuple.src_port,
        ) {
            if is_s5s8_teid_match(third_node, teid) {
                update_node_info(init_node, seq, 0, 0, 0, 0, 0);
                true
            } else {
                false
            }
        } else if check_node(init_node, tuple.dst_addr, tuple.dst_port) && check_node(
            resp_node,
            tuple.src_addr,
            tuple.src_port,
        ) {
            if is_s11_teid_match(resp_node, teid) {
                update_node_info(resp_node, 0, seq, 0, 0, 0, 0);
                true
            } else {
                false
            }
        } else {
            false
        }
    } else if msg_type == GTPV2C_CREATE_BEARER_RSP || msg_type == GTPV2C_UPDATE_BEARER_RSP
        || msg_type == GTPV2C_DELETE_BEARER_RSP {
        if init_node.status <= 1 {
            false
        } else if check_node(resp_node, tuple.dst_addr, tuple.dst_port) {
            is_s11_seq_match(resp_node, seq) && is_s11_teid_match(resp_node, teid)
        } else if third_node.status > 0 && check_node(third_node, tuple.dst_addr, tuple.dst_port) {
            is_s5s8_seq_match(third_node, seq) && is_s5s8_teid_match(third_node, teid)
        } else {
            false
        }
    } else if msg_type == GTPV2C_DELETE_SESSION_REQ {
        if init_node.status <= 1 {
            false
        } else if check_node(init_node, tuple.src_addr, tuple.src_port) {
            if is_s11_teid_match(resp_node, teid) {
                update_node_info(init_node, seq, 0, 0, 0, 0, 0);
                true
            } else {
                false
            }
        } else if check_node(resp_node, tuple.src_addr, tuple.src_port) {
            if is_s5s8_teid_match(third_node, teid) {
                update_node_info(resp_node, 0, seq, 0, 0, 0, 0);
                true
            } else {
                false
            }
        } else {
            false
        }
    } else if msg_type == GTPV2C_DELETE_SESSION_RSP {
        if init_node.status == 0 {
            false
        } else if third_node.status > 0 && check_node(resp_node, tuple.dst_addr, tuple.dst_port)
            && check_node(third_node, tuple.src_addr, tuple.src_port) {
            is_s5s8_teid_match(resp_node, teid) && is_s5s8_seq_match(resp_node, seq)
        } else if check_node(init_node, tuple.dst_addr, tuple.dst_port) && check_node(
            resp_node,
            tuple.src_addr,
            tuple.src_port,
        ) {
            is_s11_teid_match(init_node, teid) && is_s11_seq_match(init_node, seq)
        } else {
            false
        }
    } else {
        false
    }
}


/// The flow key read off a frame: Ethernet header, then IPv4 protocol and
/// addresses, then UDP ports.  Frames too short for those fields, or not
/// carrying UDP, yield the all-zero tuple.
pub open spec fn spec_5tuple(data: Seq<u8>) -> Ip5Tuple {
    if data.len() >= 38 && data[23] == PROTO_TYPE_UDP as u8 {
        Ip5Tuple {
            protocol: data[23],
            src_addr: be32(data[26], data[27], data[28], data[29]),
            dst_addr: be32(data[30], data[31], data[32], data[33]),
            src_port: be16(data[34], data[35]),
            dst_port: be16(data[36], data[37]),
        }
    } else {
        spec_zero_tuple()
    }
}

/// Reads a frame's flow key.
pub fn extract_5tuple(packet: &OwnedPacket) -> (r: Ip5Tuple)
    ensures
        r == spec_5tuple(packet.data@),
{
    if packet.data.len() < 38 {
        return Ip5Tuple::new();
    }
    let proto = packet.data[23];
    if proto != PROTO_TYPE_UDP as u8 {
        return Ip5Tuple::new();
    }
    Ip5Tuple {
        protocol: proto,
        src_addr: read_be32(packet.data[26], packet.data[27], packet.data[28], packet.data[29]),
        dst_addr: read_be32(packet.data[30], packet.data[31], packet.data[32], packet.data[33]),
        src_port: read_be16(packet.data[34], packet.data[35]),
        dst_port: read_be16(packet.data[36], packet.data[37]),
    }
}

/// Whether a frame plausibly carries the tunneling control protocol:
/// IPv4 over Ethernet, UDP, and the well-known destination port.
pub open spec fn spec_check_gtp(data: Seq<u8>) -> bool {
    data.len() >= 38 && be16(data[12], data[13]) == 0x0800 && data[23] == PROTO_TYPE_UDP as u8
        && be16(data[36], data[37]) == WELLKNOWN_PORT_GTPV2
}

/// Coarse filter: whether a frame plausibly carries the tunneling control
/// protocol, judged by ethertype, transport protocol and destination port.
pub fn check_gtp(packet: &OwnedPacket) -> (r: bool)
    ensures
        r == spec_check_gtp(packet.data@),
{
    if packet.data.len() < 38 {
        return false;
    }
    let next_type = read_be16(packet.data[12], packet.data[13]);
    if next_type != 0x0800 {
        return false;
    }
    if packet.data[23] != PROTO_TYPE_UDP as u8 {
        return false;
    }
    let dst_port = read_be16(packet.data[36], packet.data[37]);
    dst_port == WELLKNOWN_PORT_GTPV2
}

/// The subscriber identity carried by an element list: the first
/// subscriber-identity element's digit string, or empty if there is none
/// or it did not decode.
pub open spec fn spec_imsi_of_ies(ies: Seq<GtpIe>) -> Seq<char> {
    let i = spec_first_ie(ies, GTPV2C_IE_IMSI);
    if i >= 0 {
        match ies[i].ie_value {
            GtpIeValue::Utf8String(p) => p@,
            _ => Seq::<char>::empty(),
        }
    } else {
        Seq::<char>::empty()
    }
}

/// The first tunnel-endpoint descriptor's tunnel id, or zero if there is
/// none or one of the descriptor elements did not decode.
pub open spec fn spec_fteid_of_ies(ies: Seq<GtpIe>) -> u32 {
    if spec_fteids_ok_from(ies, 0) && spec_fteid_list_from(ies, 0).len() > 0 {
        spec_fteid_list_from(ies, 0)[0].teid
    } else {
        0
    }
}

/// The subscriber identity of an element list, or empty where the lookup
/// fails.
pub fn extract_imsi(ies: &Vec<GtpIe>) -> (r: String)
    ensures
        r@ == spec_imsi_of_ies(ies@),
{
    match find_ie_imsi(ies) {
        Ok(s) => s,
        Err(_) => String::new(),
    }
}

/// The first tunnel-endpoint descriptor's tunnel id, or zero where the
/// lookup fails.
pub fn extract_fteid(ies: &Vec<GtpIe>) -> (r: u32)
    ensures
        r == spec_fteid_of_ies(ies@),
{
    match find_ie_fteid(ies) {
        Ok(v) => {
            proof {
                lemma_fteid_head_from(ies@, 0);
            }
            v[0].teid
        },
        Err(_) => 0,
    }
}

/// Index of the first frame of the given type at or after `i`, or -1.
pub open spec fn spec_first_frame_from(fs: Seq<IeFrame>, t: u8, i: int) -> int
    decreases fs.len() - i,
{
    if i < 0 || i >= fs.len() {
        -1
    } else if fs[i].t == t {
        i
    } else {
        spec_first_frame_from(fs, t, i + 1)
    }
}

/// Under a well-decoded list, the head of the descriptor list is the
/// payload of the first descriptor-typed element.
pub proof fn lemma_fteid_head_from(ies: Seq<GtpIe>, i: int)
    requires
        0 <= i,
        spec_fteids_ok_from(ies, i),
    ensures
        spec_fteid_list_from(ies, i).len() > 0 <==> spec_first_ie_from(
            ies,
            GTPV2C_IE_FTEID,
            i,
        ) >= 0,
        spec_first_ie_from(ies, GTPV2C_IE_FTEID, i) >= 0 ==> (ies[spec_first_ie_from(
            ies,
            GTPV2C_IE_FTEID,
            i,
        )].ie_value matches GtpIeValue::FTeid(f) && spec_fteid_list_from(ies, i)[0] == f),
    decreases ies.len() - i,
{
    if i < ies.len() {
        lemma_fteid_head_from(ies, i + 1);
    }
}

/// Lists whose elements carry the same type codes have the same first
/// index for every type.
pub proof fn lemma_first_agree(ies: Seq<GtpIe>, fs: Seq<IeFrame>, t: u8, i: int)
    requires
        0 <= i,
        ies.len() == fs.len(),
        forall|k: int| 0 <= k < fs.len() ==> (#[trigger] ies[k]).ie_type == fs[k].t,
    ensures
        spec_first_ie_from(ies, t, i) == spec_first_frame_from(fs, t, i),
    decreases ies.len() - i,
{
    if i < ies.len() {
        lemma_first_agree(ies, fs, t, i + 1);
    }
}

/// The subscriber identity carried by an element list's bytes.
pub open spec fn spec_imsi_of_bytes(iebytes: Seq<u8>) -> Seq<char> {
    match spec_ie_frames(iebytes, true) {
        Some(fs) => {
            let i = spec_first_frame_from(fs, GTPV2C_IE_IMSI, 0);
            if i >= 0 && fs[i].val.len() > 0 {
                spec_bcd(fs[i].val)
            } else {
                Seq::<char>::empty()
            }
        },
        None => Seq::<char>::empty(),
    }
}

/// The first tunnel-endpoint descriptor's tunnel id carried by an element
/// list's bytes.
pub open spec fn spec_fteid_of_bytes(iebytes: Seq<u8>) -> u32 {
    match spec_ie_frames(iebytes, true) {
        Some(fs) => {
            if forall|k: int|
                0 <= k < fs.len() && (#[trigger] fs[k]).t == GTPV2C_IE_FTEID ==> spec_fteid_ok(
                    fs[k].val,
                ) {
                let i = spec_first_frame_from(fs, GTPV2C_IE_FTEID, 0);
                if i >= 0 {
                    be32(fs[i].val[1], fs[i].val[2], fs[i].val[3], fs[i].val[4])
                } else {
                    0
                }
            } else {
                0
            }
        },
        None => 0,
    }
}

/// A found first index lies in range and points at the sought type.
pub proof fn lemma_first_props(ies: Seq<GtpIe>, t: u8, i: int)
    requires
        0 <= i,
    ensures
        spec_first_ie_from(ies, t, i) >= 0 ==> i <= spec_first_ie_from(ies, t, i) < ies.len()
            && ies[spec_first_ie_from(ies, t, i)].ie_type == t,
    decreases ies.len() - i,
{
    if i < ies.len() && ies[i].ie_type != t {
        lemma_first_props(ies, t, i + 1);
    }
}

/// An element list decoded from bytes carries the same subscriber
/// identity and first tunnel id as the bytes themselves.
pub proof fn lemma_event_extract(ies: Seq<GtpIe>, iebytes: Seq<u8>)
    requires
        spec_ies_match_hard(ies, iebytes),
    ensures
        spec_imsi_of_ies(ies) == spec_imsi_of_bytes(iebytes),
        spec_fteid_of_ies(ies) == spec_fteid_of_bytes(iebytes),
{
    let fs = spec_ie_frames(iebytes, true).unwrap();
    let d = MAX_IE_DEPTH as nat;
    assert forall|k: int| 0 <= k < fs.len() implies (#[trigger] ies[k]).ie_type == fs[k].t by {
        assert(crate::gtp_ie::spec_ie_matches(ies[k], fs[k], d));
    }
    lemma_first_agree(ies, fs, GTPV2C_IE_IMSI, 0);
    lemma_first_agree(ies, fs, GTPV2C_IE_FTEID, 0);
    lemma_first_props(ies, GTPV2C_IE_IMSI, 0);
    lemma_first_props(ies, GTPV2C_IE_FTEID, 0);
    let im = spec_first_ie(ies, GTPV2C_IE_IMSI);
    if im >= 0 {
        assert(crate::gtp_ie::spec_ie_matches(ies[im], fs[im], d));
        assert(!crate::gtpv2_types::spec_ie_is_grouped(fs[im].t));
    }
    let frames_ok = forall|k: int|
        0 <= k < fs.len() && (#[trigger] fs[k]).t == GTPV2C_IE_FTEID ==> spec_fteid_ok(fs[k].val);
    if spec_fteids_ok_from(ies, 0) {
        assert forall|k: int|
            0 <= k < fs.len() && (#[trigger] fs[k]).t == GTPV2C_IE_FTEID implies spec_fteid_ok(
            fs[k].val,
        ) by {
            assert(ies[k].ie_type == GTPV2C_IE_FTEID);
            assert(ies[k].ie_value is FTeid);
            assert(crate::gtp_ie::spec_ie_matches(ies[k], fs[k], d));
            assert(!crate::gtpv2_types::spec_ie_is_grouped(fs[k].t));
        }
        lemma_fteid_head_from(ies, 0);
        let ft = spec_first_ie(ies, GTPV2C_IE_FTEID);
        if ft >= 0 {
            assert(crate::gtp_ie::spec_ie_matches(ies[ft], fs[ft], d));
            assert(!crate::gtpv2_types::spec_ie_is_grouped(fs[ft].t));
            assert(spec_fteid_ok(fs[ft].val));
            assert(ies[ft].ie_value matches GtpIeValue::FTeid(f) && crate::gtp_ie::spec_fteid_matches(
                f,
                fs[ft].val,
            ));
        }
    } else {
        let bad = choose|k: int|
            0 <= k < ies.len() && (#[trigger] ies[k]).ie_type == GTPV2C_IE_FTEID && !(
            ies[k].ie_value is FTeid);
        assert(crate::gtp_ie::spec_ie_matches(ies[bad], fs[bad], d));
        assert(!crate::gtpv2_types::spec_ie_is_grouped(fs[bad].t));
        assert(!spec_fteid_ok(fs[bad].val));
        assert(!frames_ok);
    }
}

/// What the state machine reads off one frame's bytes, or nothing when
/// the fixed header cannot be decoded or carries no tunnel id.
pub open spec fn spec_frame_event(data: Seq<u8>) -> Option<EventV> {
    if data.len() < 42 {
        None
    } else {
        let g = data.subrange(42, data.len() as int);
        if !spec_whole_msg_ok(g) {
            None
        } else {
            let h = spec_gtp_header(g);
            if h.teid is None {
                None
            } else {
                let iebytes = data.subrange(42 + spec_gtp_hdr_len(g[0]), data.len() as int);
                Some(
                    EventV {
                        msg_type: h.msg_type,
                        seq: h.seq,
                        teid: h.teid.unwrap(),
                        fteid: spec_fteid_of_bytes(iebytes),
                        tuple: spec_5tuple(data),
                        imsi: spec_imsi_of_bytes(iebytes),
                    },
                )
            }
        }
    }
}


/// The scenario fold: applies `spec_step` to every frame in order,
/// collecting the index and bytes of each accepted frame, or nothing if a
/// frame's fixed header cannot be decoded or carries no tunnel id.
pub open spec fn spec_scan(st: StateV, ps: Seq<OwnedPacket>, target_imsi: Seq<char>) -> Option<
    (StateV, Seq<(usize, Seq<u8>)>),
>
    decreases ps.len(),
{
    if ps.len() == 0 {
        Some((st, seq![]))
    } else {
        match spec_frame_event(ps[0].data@) {
            Option::<EventV>::None => None,
            Some(ev) => {
                let r = spec_step(st, ev, target_imsi);
                match spec_scan(r.0, ps.drop_first(), target_imsi) {
                    Option::<(StateV, Seq<(usize, Seq<u8>)>)>::None => None,
                    Some(rest) => Some(
                        (
                            rest.0,
                            (if r.1 {
                                seq![(ps[0].idx, ps[0].data@)]
                            } else {
                                seq![]
                            }) + rest.1,
                        ),
                    ),
                }
            },
        }
    }
}

/// Prefixes the accepted list of a scan outcome.
pub open spec fn spec_scan_prepend(
    pre: Seq<(usize, Seq<u8>)>,
    o: Option<(StateV, Seq<(usize, Seq<u8>)>)>,
) -> Option<(StateV, Seq<(usize, Seq<u8>)>)> {
    match o {
        Option::<(StateV, Seq<(usize, Seq<u8>)>)>::None => None,
        Some(r) => Some((r.0, pre + r.1)),
    }
}

/// Every frame a scan accepts is long enough to carry the fixed headers
/// and a message type.
pub proof fn lemma_scan_pairs_long(st: StateV, ps: Seq<OwnedPacket>, target_imsi: Seq<char>)
    ensures
        spec_scan(st, ps, target_imsi) matches Some(r) ==> forall|k: int|
            0 <= k < r.1.len() ==> (#[trigger] r.1[k]).1.len() >= 50,
    decreases ps.len(),
{
    if ps.len() > 0 {
        if spec_frame_event(ps[0].data@) is Some {
            let ev = spec_frame_event(ps[0].data@).unwrap();
            let r = spec_step(st, ev, target_imsi);
            lemma_scan_pairs_long(r.0, ps.drop_first(), target_imsi);
        }
    }
}

/// The element bytes of a frame: everything after the link, network,
/// transport and fixed tunneling-protocol headers.
pub open spec fn spec_iebytes(d: Seq<u8>) -> Seq<u8>
    recommends
        d.len() >= 43,
        42 + spec_gtp_hdr_len(d[42]) <= d.len(),
{
    d.subrange(42 + spec_gtp_hdr_len(d[42]), d.len() as int)
}

/// The decoded elements a frame carries after the state machine has seen
/// it: the hard-decoded element list of its element bytes, or the empty
/// list where that decode fails.
pub open spec fn spec_pkt_ies_ok(p: OwnedPacket) -> bool
    recommends
        p.data@.len() >= 50,
{
    let iebytes = spec_iebytes(p.data@);
    match spec_ie_frames(iebytes, true) {
        Some(_) => spec_ies_match_hard(p.ies@, iebytes),
        Option::<Seq<IeFrame>>::None => p.ies@.len() == 0,
    }
}

/// Classifies every frame against the seed's flow, in capture order.
/// Returns the accepted frames (with their decoded elements attached) and
/// appends the discovered nodes: initiator, responder, and the tunneled
/// peer if it was ever seen.  Fails exactly when a frame's fixed header
/// cannot be decoded or carries no tunnel id, or no frame was accepted.
#[verifier::loop_isolation(false)]
pub fn senario_analysis(
    target: TargetInfo,
    vec_packets: Vec<OwnedPacket>,
    nodes: &mut Vec<NodeInfo>,
) -> (r: Result<Vec<OwnedPacket>, String>)
    requires
        vec_packets@.len() < u64::MAX,
    ensures
        ({
            let scan = spec_scan(spec_zero_state(), vec_packets@, target.imsi@);
            &&& (r is Ok <==> (scan matches Some(sr) && sr.1.len() > 0))
            &&& ((scan matches Some(sr) && sr.1.len() == 0) ==> (r matches Err(e) && e@
                == "No packets matched the 5-tuple"@))
            &&& (r is Err ==> final(nodes)@ == old(nodes)@)
            &&& (r matches Ok(v) ==> {
                let sr = scan.unwrap();
                &&& v@.len() == sr.1.len()
                &&& (forall|k: int|
                    0 <= k < v@.len() ==> (#[trigger] v@[k]).idx == sr.1[k].0 && v@[k].data@
                        == sr.1[k].1 && spec_pkt_ies_ok(v@[k]))
                &&& final(nodes)@.len() == old(nodes)@.len() + (if sr.0.third.status > 0 {
                    3int
                } else {
                    2int
                })
                &&& (forall|j: int| 0 <= j < old(nodes)@.len() ==> final(nodes)@[j] == old(
                    nodes,
                )@[j])
                &&& node_view(final(nodes)@[old(nodes)@.len() as int]) == sr.0.init
                &&& node_view(final(nodes)@[old(nodes)@.len() as int + 1]) == sr.0.resp
                &&& (sr.0.third.status > 0 ==> node_view(
                    final(nodes)@[old(nodes)@.len() as int + 2],
                ) == sr.0.third)
            })
        }),
{
    let ghost orig = vec_packets@;
    let ghost tgt = target.imsi@;
    let mut pkts = vec_packets;
    let mut filtered_packets: Vec<OwnedPacket> = Vec::new();
    let mut init_node = NodeInfo::new();
    let mut resp_node = NodeInfo::new();
    let mut third_node = NodeInfo::new();
    let ghost mut acc_pairs: Seq<(usize, Seq<u8>)> = seq![];
    while pkts.len() > 0
        invariant
            init_node.status as int <= 1 + orig.len() - pkts@.len(),
            resp_node.status as int <= 1 + orig.len() - pkts@.len(),
            third_node.status as int <= 1 + orig.len() - pkts@.len(),
            pkts@.len() <= orig.len(),
            spec_scan(spec_zero_state(), orig, tgt) == spec_scan_prepend(
                acc_pairs,
                spec_scan(
                    StateV {
                        init: node_view(init_node),
                        resp: node_view(resp_node),
                        third: node_view(third_node),
                    },
                    pkts@,
                    tgt,
                ),
            ),
            filtered_packets@.len() == acc_pairs.len(),
            forall|k: int|
                0 <= k < acc_pairs.len() ==> (#[trigger] filtered_packets@[k]).idx
                    == acc_pairs[k].0 && filtered_packets@[k].data@ == acc_pairs[k].1
                    && spec_pkt_ies_ok(filtered_packets@[k]),
        decreases pkts@.len(),
    {
        let ghost pkts_before = pkts@;
        let ghost st_before = StateV {
            init: node_view(init_node),
            resp: node_view(resp_node),
            third: node_view(third_node),
        };
        let mut pkt = pkts.remove(0);
        proof {
            assert(pkts@ =~= pkts_before.drop_first());
        }
        if pkt.data.len() < 42 {
            return Err(String::from_str("GTP header out of reach"));
        }
        let sub = &pkt.data.as_slice()[42..pkt.data.len()];
        let (hdr, _consumed) = match get_gtp_header(sub) {
            Ok(v) => v,
            Err(e) => {
                return Err(e);
            },
        };
        let teid = match hdr.teid {
            Some(t) => t,
            Option::<u32>::None => {
                return Err(String::from_str("No TEID in GTP Header"));
            },
        };
        let tuple = extract_5tuple(&pkt);
        let hdr_len = get_gtp_hdr_len(sub);
        let iebytes = &pkt.data.as_slice()[42 + hdr_len..pkt.data.len()];
        let ies = match parse_all_ies(iebytes) {
            Ok(v) => v,
            Err(_) => Vec::new(),
        };
        let fteid_teid = extract_fteid(&ies);
        let imsi = extract_imsi(&ies);
        proof {
            if spec_ie_frames(iebytes@, true) is Some {
                lemma_event_extract(ies@, iebytes@);
            }
        }
        pkt.ies = ies;
        let ghost ev = spec_frame_event(pkt.data@).unwrap();
        proof {
            assert(ev.msg_type == hdr.msg_type && ev.seq == hdr.seq && ev.teid == teid
                && ev.fteid == fteid_teid && ev.tuple == tuple && ev.imsi == imsi@);
        }
        let accepted = scenario_step(
            &mut init_node,
            &mut resp_node,
            &mut third_node,
            hdr.msg_type,
            hdr.seq,
            teid,
            fteid_teid,
            &tuple,
            &imsi,
            &target.imsi,
        );
        proof {
            lemma_step_status_growth(st_before, ev, tgt);
        }
        if accepted {
            let ghost pair = (pkt.idx, pkt.data@);
            filtered_packets.push(pkt);
            proof {
                acc_pairs = acc_pairs + seq![pair];
                assert(spec_scan_prepend(
                    acc_pairs,
                    spec_scan(
                        StateV {
                            init: node_view(init_node),
                            resp: node_view(resp_node),
                            third: node_view(third_node),
                        },
                        pkts@,
                        tgt,
                    ),
                ) == spec_scan_prepend(acc_pairs.subrange(0, acc_pairs.len() - 1), spec_scan(st_before, pkts_before, tgt))) by {
                    lemma_scan_unfold(st_before, pkts_before, tgt, acc_pairs.subrange(0, acc_pairs.len() - 1), pair);
                }
                assert(acc_pairs.subrange(0, acc_pairs.len() - 1) =~= acc_pairs.drop_last());
            }
        } else {
            proof {
                lemma_scan_unfold_reject(st_before, pkts_before, tgt, acc_pairs);
            }
        }
    }
    if filtered_packets.len() == 0 {
        proof {
            assert(spec_scan(
                StateV {
                    init: node_view(init_node),
                    resp: node_view(resp_node),
                    third: node_view(third_node),
                },
                pkts@,
                tgt,
            ) == Some((
                StateV {
                    init: node_view(init_node),
                    resp: node_view(resp_node),
                    third: node_view(third_node),
                },
                Seq::<(usize, Seq<u8>)>::empty(),
            )));
            assert(acc_pairs + Seq::<(usize, Seq<u8>)>::empty() =~= acc_pairs);
        }
        return Err(String::from_str("No packets matched the 5-tuple"));
    }
    proof {
        assert(acc_pairs + Seq::<(usize, Seq<u8>)>::empty() =~= acc_pairs);
    }
    let third_seen = third_node.status > 0;
    nodes.push(init_node);
    nodes.push(resp_node);
    if third_seen {
        nodes.push(third_node);
    }
    Ok(filtered_packets)
}

/// Unfolding one accepted step of the scan keeps the prefixed outcome.
proof fn lemma_scan_unfold(
    st: StateV,
    ps: Seq<OwnedPacket>,
    tgt: Seq<char>,
    pre: Seq<(usize, Seq<u8>)>,
    pair: (usize, Seq<u8>),
)
    requires
        ps.len() > 0,
        spec_frame_event(ps[0].data@) is Some,
        spec_step(st, spec_frame_event(ps[0].data@).unwrap(), tgt).1,
        pair == (ps[0].idx, ps[0].data@),
    ensures
        spec_scan_prepend(pre + seq![pair], spec_scan(
            spec_step(st, spec_frame_event(ps[0].data@).unwrap(), tgt).0,
            ps.drop_first(),
            tgt,
        )) == spec_scan_prepend(pre, spec_scan(st, ps, tgt)),
{
    let ev = spec_frame_event(ps[0].data@).unwrap();
    let r = spec_step(st, ev, tgt);
    match spec_scan(r.0, ps.drop_first(), tgt) {
        Option::<(StateV, Seq<(usize, Seq<u8>)>)>::None => {},
        Some(rest) => {
            assert((pre + seq![pair]) + rest.1 =~= pre + (seq![pair] + rest.1));
        },
    }
}

/// Unfolding one rejected step of the scan keeps the prefixed outcome.
proof fn lemma_scan_unfold_reject(
    st: StateV,
    ps: Seq<OwnedPacket>,
    tgt: Seq<char>,
    pre: Seq<(usize, Seq<u8>)>,
)
    requires
        ps.len() > 0,
        spec_frame_event(ps[0].data@) is Some,
        !spec_step(st, spec_frame_event(ps[0].data@).unwrap(), tgt).1,
    ensures
        spec_scan_prepend(pre, spec_scan(
            spec_step(st, spec_frame_event(ps[0].data@).unwrap(), tgt).0,
            ps.drop_first(),
            tgt,
        )) == spec_scan_prepend(pre, spec_scan(st, ps, tgt)),
{
    let ev = spec_frame_event(ps[0].data@).unwrap();
    let r = spec_step(st, ev, tgt);
    match spec_scan(r.0, ps.drop_first(), tgt) {
        Option::<(StateV, Seq<(usize, Seq<u8>)>)>::None => {},
        Some(rest) => {
            assert(pre + (Seq::<(usize, Seq<u8>)>::empty() + rest.1) =~= pre + rest.1);
        },
    }
}


/// The frames of a capture that pass the coarse tunneling-protocol filter,
/// in order.
pub open spec fn spec_filter_gtp(ps: Seq<OwnedPacket>) -> Seq<OwnedPacket>
    decreases ps.len(),
{
    if ps.len() == 0 {
        seq![]
    } else {
        (if spec_check_gtp(ps[0].data@) {
            seq![ps[0]]
        } else {
            seq![]
        }) + spec_filter_gtp(ps.drop_first())
    }
}

/// Keeps the frames that pass the coarse filter.  Fails exactly when none
/// does.
pub fn filtered_as_gtp(vec_packets: Vec<OwnedPacket>) -> (r: Result<Vec<OwnedPacket>, String>)
    ensures
        r is Ok <==> spec_filter_gtp(vec_packets@).len() > 0,
        r matches Ok(v) ==> v@ == spec_filter_gtp(vec_packets@),
        r matches Err(e) ==> e@ == "No GTP packets in pcap file"@,
{
    let ghost orig = vec_packets@;
    let mut pkts = vec_packets;
    let mut filtered: Vec<OwnedPacket> = Vec::new();
    while pkts.len() > 0
        invariant
            spec_filter_gtp(orig) == filtered@ + spec_filter_gtp(pkts@),
        decreases pkts@.len(),
    {
        let ghost pkts_before = pkts@;
        let ghost acc_before = filtered@;
        let pkt = pkts.remove(0);
        proof {
            assert(pkts@ =~= pkts_before.drop_first());
        }
        if check_gtp(&pkt) {
            filtered.push(pkt);
            proof {
                assert(acc_before + (seq![pkts_before[0]] + spec_filter_gtp(pkts@)) =~= filtered@
                    + spec_filter_gtp(pkts@));
            }
        } else {
            proof {
                assert(acc_before + (Seq::<OwnedPacket>::empty() + spec_filter_gtp(pkts@))
                    =~= filtered@ + spec_filter_gtp(pkts@));
            }
        }
    }
    proof {
        assert(filtered@ + spec_filter_gtp(pkts@) =~= filtered@);
    }
    if filtered.len() == 0 {
        return Err(String::from_str("No GTP packets in pcap file"));
    }
    Ok(filtered)
}

/// The subscriber identity a frame carries, or empty if its element bytes
/// are out of reach or hold none.
pub open spec fn spec_pkt_imsi(d: Seq<u8>) -> Seq<char> {
    if d.len() >= 43 && 42 + spec_gtp_hdr_len(d[42]) <= d.len() {
        spec_imsi_of_bytes(spec_iebytes(d))
    } else {
        Seq::<char>::empty()
    }
}

/// The subscriber identity a frame carries, or empty if its element bytes
/// are out of reach or hold none.
fn pkt_imsi(pkt: &OwnedPacket) -> (r: String)
    ensures
        r@ == spec_pkt_imsi(pkt.data@),
{
    if pkt.data.len() < 43 {
        return String::new();
    }
    let hdr_len = get_gtp_hdr_len(&pkt.data.as_slice()[42..pkt.data.len()]);
    if 42 + hdr_len > pkt.data.len() {
        return String::new();
    }
    let iebytes = &pkt.data.as_slice()[42 + hdr_len..pkt.data.len()];
    let ies = match parse_all_ies(iebytes) {
        Ok(v) => v,
        Err(_) => Vec::new(),
    };
    proof {
        if spec_ie_frames(iebytes@, true) is Some {
            lemma_event_extract(ies@, iebytes@);
        }
    }
    extract_imsi(&ies)
}

/// The frames whose subscriber identity equals the target's, in order.
pub open spec fn spec_filter_imsi(tgt: Seq<char>, ps: Seq<OwnedPacket>) -> Seq<OwnedPacket>
    decreases ps.len(),
{
    if ps.len() == 0 {
        seq![]
    } else {
        (if spec_pkt_imsi(ps[0].data@) == tgt {
            seq![ps[0]]
        } else {
            seq![]
        }) + spec_filter_imsi(tgt, ps.drop_first())
    }
}

/// Keeps the frames whose subscriber identity equals the target's.
pub fn filter_by_imsi(target_imsi: &String, packets: Vec<OwnedPacket>) -> (r: Vec<OwnedPacket>)
    ensures
        r@ == spec_filter_imsi(target_imsi@, packets@),
{
    let ghost orig = packets@;
    let ghost tgt = target_imsi@;
    let mut pkts = packets;
    let mut kept: Vec<OwnedPacket> = Vec::new();
    while pkts.len() > 0
        invariant
            tgt == target_imsi@,
            spec_filter_imsi(tgt, orig) == kept@ + spec_filter_imsi(tgt, pkts@),
        decreases pkts@.len(),
    {
        let ghost pkts_before = pkts@;
        let ghost acc_before = kept@;
        let pkt = pkts.remove(0);
        proof {
            assert(pkts@ =~= pkts_before.drop_first());
        }
        let imsi = pkt_imsi(&pkt);
        if imsi == *target_imsi {
            kept.push(pkt);
            proof {
                assert(acc_before + (seq![pkts_before[0]] + spec_filter_imsi(tgt, pkts@)) =~= kept@
                    + spec_filter_imsi(tgt, pkts@));
            }
        } else {
            proof {
                assert(acc_before + (Seq::<OwnedPacket>::empty() + spec_filter_imsi(tgt, pkts@))
                    =~= kept@ + spec_filter_imsi(tgt, pkts@));
            }
        }
    }
    proof {
        assert(kept@ + spec_filter_imsi(tgt, pkts@) =~= kept@);
    }
    kept
}

/// Whether a frame's addresses and ports match the tuple, each pair in
/// either direction, and the protocols agree.
pub open spec fn spec_checked_by_5tuple(t: Ip5Tuple, d: Seq<u8>) -> bool {
    let src = be32(d[26], d[27], d[28], d[29]);
    let dst = be32(d[30], d[31], d[32], d[33]);
    let sp = be16(d[34], d[35]);
    let dp = be16(d[36], d[37]);
    d.len() >= 38 && (t.src_addr == src || t.src_addr == dst) && (t.dst_addr == src || t.dst_addr
        == dst) && t.protocol == d[23] && (t.src_port == sp || t.src_port == dp) && (t.dst_port
        == sp || t.dst_port == dp)
}

/// Whether a frame's addresses and ports match the tuple, each pair in
/// either direction.
pub fn checked_by_5tuple(tuple: &Ip5Tuple, packet: &OwnedPacket) -> (r: bool)
    ensures
        r == spec_checked_by_5tuple(*tuple, packet.data@),
{
    if packet.data.len() < 38 {
        return false;
    }
    let src = read_be32(packet.data[26], packet.data[27], packet.data[28], packet.data[29]);
    let dst = read_be32(packet.data[30], packet.data[31], packet.data[32], packet.data[33]);
    let sp = read_be16(packet.data[34], packet.data[35]);
    let dp = read_be16(packet.data[36], packet.data[37]);
    (tuple.src_addr == src || tuple.src_addr == dst) && (tuple.dst_addr == src || tuple.dst_addr
        == dst) && tuple.protocol == packet.data[23] && (tuple.src_port == sp || tuple.src_port
        == dp) && (tuple.dst_port == sp || tuple.dst_port == dp)
}

/// The frames matching the tuple in either direction, in order.
pub open spec fn spec_filter_5tuple(t: Ip5Tuple, ps: Seq<OwnedPacket>) -> Seq<OwnedPacket>
    decreases ps.len(),
{
    if ps.len() == 0 {
        seq![]
    } else {
        (if spec_checked_by_5tuple(t, ps[0].data@) {
            seq![ps[0]]
        } else {
            seq![]
        }) + spec_filter_5tuple(t, ps.drop_first())
    }
}

/// Keeps the frames matching the tuple in either direction.  Fails
/// exactly when none does.
pub fn filter_by_5tuple(tuple: Ip5Tuple, vec_packets: Vec<OwnedPacket>) -> (r: Result<
    Vec<OwnedPacket>,
    String,
>)
    ensures
        r is Ok <==> spec_filter_5tuple(tuple, vec_packets@).len() > 0,
        r matches Ok(v) ==> v@ == spec_filter_5tuple(tuple, vec_packets@),
        r matches Err(e) ==> e@ == "No packets matched the 5-tuple"@,
{
    let ghost orig = vec_packets@;
    let mut pkts = vec_packets;
    let mut kept: Vec<OwnedPacket> = Vec::new();
    while pkts.len() > 0
        invariant
            spec_filter_5tuple(tuple, orig) == kept@ + spec_filter_5tuple(tuple, pkts@),
        decreases pkts@.len(),
    {
        let ghost pkts_before = pkts@;
        let ghost acc_before = kept@;
        let pkt = pkts.remove(0);
        proof {
            assert(pkts@ =~= pkts_before.drop_first());
        }
        if checked_by_5tuple(&tuple, &pkt) {
            kept.push(pkt);
            proof {
                assert(acc_before + (seq![pkts_before[0]] + spec_filter_5tuple(tuple, pkts@))
                    =~= kept@ + spec_filter_5tuple(tuple, pkts@));
            }
        } else {
            proof {
                assert(acc_before + (Seq::<OwnedPacket>::empty() + spec_filter_5tuple(tuple, pkts@))
                    =~= kept@ + spec_filter_5tuple(tuple, pkts@));
            }
        }
    }
    proof {
        assert(kept@ + spec_filter_5tuple(tuple, pkts@) =~= kept@);
    }
    if kept.len() == 0 {
        return Err(String::from_str("No packets matched the 5-tuple"));
    }
    Ok(kept)
}

/// Whether a frame carries exactly this tunnel id in its fixed header.
pub open spec fn spec_teid_matches(teid: u32, d: Seq<u8>) -> bool {
    d.len() >= 50 && spec_t_flag(d[42]) && be32(d[46], d[47], d[48], d[49]) == teid
}

/// The frames carrying exactly this tunnel id, in order.
pub open spec fn spec_filter_teid(teid: u32, ps: Seq<OwnedPacket>) -> Seq<OwnedPacket>
    decreases ps.len(),
{
    if ps.len() == 0 {
        seq![]
    } else {
        (if spec_teid_matches(teid, ps[0].data@) {
            seq![ps[0]]
        } else {
            seq![]
        }) + spec_filter_teid(teid, ps.drop_first())
    }
}

/// Keeps the frames whose fixed header carries exactly this tunnel id.
pub fn filter_by_teid(orig_teid: u32, filtered_packets: Vec<OwnedPacket>) -> (r: Vec<OwnedPacket>)
    ensures
        r@ == spec_filter_teid(orig_teid, filtered_packets@),
{
    let ghost orig = filtered_packets@;
    let mut pkts = filtered_packets;
    let mut kept: Vec<OwnedPacket> = Vec::new();
    while pkts.len() > 0
        invariant
            spec_filter_teid(orig_teid, orig) == kept@ + spec_filter_teid(orig_teid, pkts@),
        decreases pkts@.len(),
    {
        let ghost pkts_before = pkts@;
        let ghost acc_before = kept@;
        let pkt = pkts.remove(0);
        proof {
            assert(pkts@ =~= pkts_before.drop_first());
        }
        let keep = if pkt.data.len() < 42 {
            false
        } else {
            match get_gtp_teid(&pkt.data.as_slice()[42..pkt.data.len()]) {
                Ok((_, teid)) => teid == orig_teid,
                Err(_) => false,
            }
        };
        if keep {
            kept.push(pkt);
            proof {
                assert(acc_before + (seq![pkts_before[0]] + spec_filter_teid(orig_teid, pkts@))
                    =~= kept@ + spec_filter_teid(orig_teid, pkts@));
            }
        } else {
            proof {
                assert(acc_before + (Seq::<OwnedPacket>::empty() + spec_filter_teid(
                    orig_teid,
                    pkts@,
                )) =~= kept@ + spec_filter_teid(orig_teid, pkts@));
            }
        }
    }
    proof {
        assert(kept@ + spec_filter_teid(orig_teid, pkts@) =~= kept@);
    }
    kept
}


/// The IPv4 text of the first tunnel-endpoint descriptor of a nested
/// list, or empty if there is none, it did not decode, or it carries no
/// IPv4 address.
pub open spec fn spec_first_fteid_ipv4(l: Seq<GtpIe>) -> Seq<char> {
    let j = spec_first_ie(l, GTPV2C_IE_FTEID);
    if j >= 0 {
        match l[j].ie_value {
            GtpIeValue::FTeid(f) => match f.ipv4 {
                Some(a) => a@,
                Option::<String>::None => Seq::<char>::empty(),
            },
            _ => Seq::<char>::empty(),
        }
    } else {
        Seq::<char>::empty()
    }
}

/// The IPv4 text of the first tunnel-endpoint descriptor of a nested
/// list, or empty where the lookup fails.
fn first_fteid_ipv4(l: &Vec<GtpIe>, i: usize) -> (r: String)
    requires
        i <= l@.len(),
    ensures
        ({
            let j = spec_first_ie_from(l@, GTPV2C_IE_FTEID, i as int);
            r@ == (if j >= 0 {
                match l@[j].ie_value {
                    GtpIeValue::FTeid(f) => match f.ipv4 {
                        Some(a) => a@,
                        Option::<String>::None => Seq::<char>::empty(),
                    },
                    _ => Seq::<char>::empty(),
                }
            } else {
                Seq::<char>::empty()
            })
        }),
    decreases l@.len() - i,
{
    if i >= l.len() {
        return String::new();
    }
    if l[i].ie_type == GTPV2C_IE_FTEID {
        match &l[i].ie_value {
            GtpIeValue::FTeid(f) => match &f.ipv4 {
                Some(a) => a.clone(),
                Option::<String>::None => String::new(),
            },
            _ => String::new(),
        }
    } else {
        first_fteid_ipv4(l, i + 1)
    }
}

/// The per-bearer ids of the bearer contexts at or after index `i`: for
/// each bearer-context element holding a nested list, the value of that
/// list's first bearer-id element, where one decoded.
pub open spec fn spec_ctx_ebis_from(ies: Seq<GtpIe>, i: int) -> Seq<u8>
    decreases ies.len() - i,
{
    if i < 0 || i >= ies.len() {
        seq![]
    } else {
        (if ies[i].ie_type == GTPV2C_IE_BEARER_CONTEXT {
            match ies[i].ie_value {
                GtpIeValue::SubIeList(l) => {
                    let j = spec_first_ie(l@, GTPV2C_IE_EBI);
                    if j >= 0 {
                        match l@[j].ie_value {
                            GtpIeValue::Uint8(v) => seq![v],
                            _ => seq![],
                        }
                    } else {
                        seq![]
                    }
                },
                _ => seq![],
            }
        } else {
            seq![]
        }) + spec_ctx_ebis_from(ies, i + 1)
    }
}

/// The per-bearer ids of the bearer contexts at or after index `i`.
fn ctx_ebis_from(ies: &Vec<GtpIe>, i: usize) -> (r: Vec<u8>)
    requires
        i <= ies@.len(),
    ensures
        r@ == spec_ctx_ebis_from(ies@, i as int),
    decreases ies@.len() - i,
{
    if i >= ies.len() {
        return Vec::new();
    }
    let mut rest = ctx_ebis_from(ies, i + 1);
    if ies[i].ie_type == GTPV2C_IE_BEARER_CONTEXT {
        match &ies[i].ie_value {
            GtpIeValue::SubIeList(l) => {
                match crate::gtp_ie::find_ie_ebi_in_bearer_ctx(l) {
                    Ok(v) => {
                        let ghost tail = rest@;
                        rest.insert(0, v);
                        proof {
                            lemma_first_props(l@, GTPV2C_IE_EBI, 0);
                            assert(rest@ =~= seq![v] + tail);
                        }
                    },
                    Err(_) => {
                        proof {
                            assert(Seq::<u8>::empty() + rest@ =~= rest@);
                        }
                    },
                }
            },
            _ => {
                proof {
                    assert(Seq::<u8>::empty() + rest@ =~= rest@);
                }
            },
        }
    } else {
        proof {
            assert(Seq::<u8>::empty() + rest@ =~= rest@);
        }
    }
    rest
}

/// The tunnel-endpoint IPv4 text of the first bearer context holding a
/// nested list, or empty if there is none.
pub open spec fn spec_bearer_ip_from(ies: Seq<GtpIe>, i: int) -> Seq<char>
    decreases ies.len() - i,
{
    if i < 0 || i >= ies.len() {
        Seq::<char>::empty()
    } else if ies[i].ie_type == GTPV2C_IE_BEARER_CONTEXT && ies[i].ie_value is SubIeList {
        match ies[i].ie_value {
            GtpIeValue::SubIeList(l) => spec_first_fteid_ipv4(l@),
            _ => Seq::<char>::empty(),
        }
    } else {
        spec_bearer_ip_from(ies, i + 1)
    }
}

/// The tunnel-endpoint IPv4 text of the first bearer context.
fn bearer_ip_from(ies: &Vec<GtpIe>, i: usize) -> (r: String)
    requires
        i <= ies@.len(),
    ensures
        r@ == spec_bearer_ip_from(ies@, i as int),
    decreases ies@.len() - i,
{
    if i >= ies.len() {
        return String::new();
    }
    if ies[i].ie_type == GTPV2C_IE_BEARER_CONTEXT {
        match &ies[i].ie_value {
            GtpIeValue::SubIeList(l) => first_fteid_ipv4(l, 0),
            _ => bearer_ip_from(ies, i + 1),
        }
    } else {
        bearer_ip_from(ies, i + 1)
    }
}

/// The linked bearer id of an element list: the top-level bearer-id
/// element's value where one decoded, else the first per-bearer id, else
/// zero.
pub open spec fn spec_bearer_lbi(ies: Seq<GtpIe>) -> u8 {
    let t = spec_first_ie(ies, GTPV2C_IE_EBI);
    if t >= 0 && ies[t].ie_value is Uint8 {
        match ies[t].ie_value {
            GtpIeValue::Uint8(v) => v,
            _ => 0u8,
        }
    } else {
        let es = spec_ctx_ebis_from(ies, 0);
        if es.len() > 0 {
            es[0]
        } else {
            0u8
        }
    }
}

/// The per-bearer summary of one accepted frame's element list: the
/// linked bearer id, the per-bearer ids of its bearer contexts, and the
/// first bearer context's tunnel-endpoint IPv4 text.
pub fn extract_bearer_ctx(ies: &Vec<GtpIe>) -> (r: Bearer)
    ensures
        r.lbi == spec_bearer_lbi(ies@),
        r.ebi@ == spec_ctx_ebis_from(ies@, 0),
        r.ip@ == spec_bearer_ip_from(ies@, 0),
{
    let ebis = ctx_ebis_from(ies, 0);
    let ip = bearer_ip_from(ies, 0);
    let lbi = match find_ie_ebi(ies) {
        Ok(v) => {
            proof {
                lemma_first_props(ies@, GTPV2C_IE_EBI, 0);
            }
            v
        },
        Err(_) => {
            proof {
                lemma_first_props(ies@, GTPV2C_IE_EBI, 0);
            }
            if ebis.len() > 0 {
                ebis[0]
            } else {
                0
            }
        },
    };
    Bearer { lbi, ebi: ebis, ip }
}

/// Exact description of one call-flow record against the accepted frame
/// it was drawn from.
pub open spec fn spec_cf_matches(cf: CallFlow, idx: usize, d: Seq<u8>, ies: Seq<GtpIe>) -> bool {
    cf.id == idx && cf.timestamp@.len() == 0 && cf.src_addr@ == spec_ipv4_text(
        be32(d[26], d[27], d[28], d[29]),
    ) && cf.dst_addr@ == spec_ipv4_text(be32(d[30], d[31], d[32], d[33])) && cf.message@
        == spec_msg_type_name(d[43]) && cf.bearer.lbi == spec_bearer_lbi(ies) && cf.bearer.ebi@
        == spec_ctx_ebis_from(ies, 0) && cf.bearer.ip@ == spec_bearer_ip_from(ies, 0)
}

/// Builds one call-flow record per accepted frame, in order: frame index,
/// addresses, message-type name, and the per-bearer summary.  Fails
/// exactly when a frame is too short to carry a message type.
pub fn make_data(flow_packets: Vec<OwnedPacket>) -> (r: Result<Vec<CallFlow>, String>)
    ensures
        r is Ok <==> (forall|k: int|
            0 <= k < flow_packets@.len() ==> (#[trigger] flow_packets@[k]).data@.len() >= 44),
        r matches Ok(v) ==> v@.len() == flow_packets@.len() && forall|k: int|
            0 <= k < flow_packets@.len() ==> spec_cf_matches(
                #[trigger] v@[k],
                flow_packets@[k].idx,
                flow_packets@[k].data@,
                flow_packets@[k].ies@,
            ),
{
    let mut call_flow: Vec<CallFlow> = Vec::new();
    let mut i: usize = 0;
    while i < flow_packets.len()
        invariant
            i <= flow_packets@.len(),
            call_flow@.len() == i,
            forall|k: int| 0 <= k < i ==> (#[trigger] flow_packets@[k]).data@.len() >= 44,
            forall|k: int|
                0 <= k < i ==> spec_cf_matches(
                    #[trigger] call_flow@[k],
                    flow_packets@[k].idx,
                    flow_packets@[k].data@,
                    flow_packets@[k].ies@,
                ),
        decreases flow_packets@.len() - i,
    {
        let pkt = &flow_packets[i];
        if pkt.data.len() < 44 {
            return Err(String::from_str("GTP message type out of reach"));
        }
        let src_addr = ipv4_text(
            read_be32(pkt.data[26], pkt.data[27], pkt.data[28], pkt.data[29]),
        );
        let dst_addr = ipv4_text(
            read_be32(pkt.data[30], pkt.data[31], pkt.data[32], pkt.data[33]),
        );
        let message = match get_msg_type_from_gtpc(&pkt.data.as_slice()[42..pkt.data.len()]) {
            Ok((_, m)) => m,
            Err(e) => {
                return Err(e);
            },
        };
        let bearer = extract_bearer_ctx(&pkt.ies);
        call_flow.push(
            CallFlow {
                id: pkt.idx,
                timestamp: String::new(),
                src_addr,
                dst_addr,
                message,
                bearer,
            },
        );
        i += 1;
    }
    Ok(call_flow)
}


/// Whether the seed frame yields a tunnel id: the fixed header is within
/// reach and its tunnel-id flag is set.
pub open spec fn spec_seed_teid_ok(d: Seq<u8>) -> bool {
    d.len() >= 50 && spec_t_flag(d[42])
}

/// The whole reconstruction, from loaded frames and a 1-based seed index
/// to the ordered call-flow records.  The scenario runs over the frames
/// that pass the coarse filter, against the seed's subscriber identity.
/// Fails exactly when the seed index is out of range, the seed carries no
/// tunnel id, no frame passes the coarse filter, a filtered frame's fixed
/// header cannot be decoded or carries no tunnel id, or no frame matched
/// the flow.
pub fn make_call_flow(vec_packets: Vec<OwnedPacket>, id: usize) -> (r: Result<
    Vec<CallFlow>,
    String,
>)
    requires
        vec_packets@.len() < u64::MAX,
    ensures
        ({
            let ps = vec_packets@;
            let in_range = 1 <= id <= ps.len();
            let tgt = if in_range {
                spec_pkt_imsi(ps[id - 1].data@)
            } else {
                Seq::<char>::empty()
            };
            let filtered = spec_filter_gtp(ps);
            let scan = spec_scan(spec_zero_state(), filtered, tgt);
            &&& (!in_range ==> (r matches Err(e) && e@ == "Packet not found"@))
            &&& (r is Ok <==> in_range && spec_seed_teid_ok(ps[id - 1].data@) && filtered.len()
                > 0 && (scan matches Some(sr) && sr.1.len() > 0))
            &&& (r matches Ok(v) ==> {
                let sr = scan.unwrap();
                &&& v@.len() == sr.1.len()
                &&& (forall|k: int|
                    0 <= k < v@.len() ==> spec_cf_of_accepted(
                        #[trigger] v@[k],
                        sr.1[k].0,
                        sr.1[k].1,
                    ))
            })
        }),
{
    if id == 0 || id > vec_packets.len() {
        return Err(String::from_str("Packet not found"));
    }
    let seed = &vec_packets[id - 1];
    let target_imsi = pkt_imsi(seed);
    let tuple = extract_5tuple(seed);
    if seed.data.len() < 42 {
        return Err(String::from_str("GTP-C parse error"));
    }
    let teid = match get_gtp_teid(&seed.data.as_slice()[42..seed.data.len()]) {
        Ok((_, t)) => t,
        Err(_) => {
            return Err(String::from_str("GTP-C parse error"));
        },
    };
    let target = TargetInfo { tuple, teid, imsi: target_imsi };
    let gtp_packets = match filtered_as_gtp(vec_packets) {
        Ok(v) => v,
        Err(e) => {
            return Err(e);
        },
    };
    proof {
        lemma_filter_gtp_len(vec_packets@);
    }
    let mut nodes: Vec<NodeInfo> = Vec::new();
    let packets = match senario_analysis(target, gtp_packets, &mut nodes) {
        Ok(v) => v,
        Err(e) => {
            return Err(e);
        },
    };
    let ghost tgt = spec_pkt_imsi(vec_packets@[id - 1].data@);
    let ghost filtered = spec_filter_gtp(vec_packets@);
    let ghost sr = spec_scan(spec_zero_state(), filtered, tgt).unwrap();
    proof {
        lemma_scan_pairs_long(spec_zero_state(), filtered, tgt);
        assert(forall|k: int|
            0 <= k < packets@.len() ==> (#[trigger] packets@[k]).data@.len() >= 50);
    }
    let result = make_data(packets);
    proof {
        assert(result is Ok);
        let v = result.unwrap();
        assert forall|k: int| 0 <= k < v@.len() implies spec_cf_of_accepted(
            #[trigger] v@[k],
            sr.1[k].0,
            sr.1[k].1,
        ) by {
            assert(spec_accepted_ies(sr.1[k].1, packets@[k].ies@) && spec_cf_matches(
                v@[k],
                sr.1[k].0,
                sr.1[k].1,
                packets@[k].ies@,
            ));
        }
    }
    result
}

/// A call-flow record drawn from an accepted frame: its fields match the
/// frame's bytes and some element list that decodes from those bytes.
pub open spec fn spec_cf_of_accepted(cf: CallFlow, idx: usize, d: Seq<u8>) -> bool {
    exists|ies: Seq<GtpIe>| spec_accepted_ies(d, ies) && spec_cf_matches(cf, idx, d, ies)
}

/// The decoded elements an accepted frame carries: the hard-decoded
/// element list of its element bytes, or the empty list where that decode
/// fails.
pub open spec fn spec_accepted_ies(d: Seq<u8>, ies: Seq<GtpIe>) -> bool
    recommends
        d.len() >= 50,
{
    let iebytes = spec_iebytes(d);
    match spec_ie_frames(iebytes, true) {
        Some(_) => spec_ies_match_hard(ies, iebytes),
        Option::<Seq<IeFrame>>::None => ies.len() == 0,
    }
}

/// The coarse filter keeps at most as many frames as it was given.
proof fn lemma_filter_gtp_len(ps: Seq<OwnedPacket>)
    ensures
        spec_filter_gtp(ps).len() <= ps.len(),
    decreases ps.len(),
{
    if ps.len() > 0 {
        lemma_filter_gtp_len(ps.drop_first());
    }
}


/// A tunnel-id slot, once set to a nonzero value, is never reset: node
/// updates and endpoint installations pass zero to leave a slot alone,
/// and a nonzero argument only overwrites with that nonzero value.
pub proof fn lemma_slots_never_reset(
    n: NodeV,
    s11_seq: u32,
    s5s8_seq: u32,
    my_s11_teid: u32,
    my_s5s8_teid: u32,
    peer_s11_teid: u32,
    peer_s5s8_teid: u32,
)
    ensures
        ({
            let u = spec_update_node(
                n,
                s11_seq,
                s5s8_seq,
                my_s11_teid,
                my_s5s8_teid,
                peer_s11_teid,
                peer_s5s8_teid,
            );
            &&& (n.my_s11_teid != 0 ==> u.my_s11_teid != 0)
            &&& (n.my_s5s8_teid != 0 ==> u.my_s5s8_teid != 0)
            &&& (n.peer_s11_teid != 0 ==> u.peer_s11_teid != 0)
            &&& (n.peer_s5s8_teid != 0 ==> u.peer_s5s8_teid != 0)
        }),
        ({
            let f = spec_init_fteid(n, my_s11_teid, my_s5s8_teid, peer_s11_teid, peer_s5s8_teid);
            &&& (n.my_s11_teid != 0 ==> f.my_s11_teid != 0)
            &&& (n.my_s5s8_teid != 0 ==> f.my_s5s8_teid != 0)
            &&& (n.peer_s11_teid != 0 ==> f.peer_s11_teid != 0)
            &&& (n.peer_s5s8_teid != 0 ==> f.peer_s5s8_teid != 0)
        }),
{
}

/// A node that a step advances grows its status by exactly one, and its
/// status never shrinks below what an advance or initialization leaves.
pub proof fn lemma_update_increments_status(
    n: NodeV,
    s11_seq: u32,
    s5s8_seq: u32,
    my_s11_teid: u32,
    my_s5s8_teid: u32,
    peer_s11_teid: u32,
    peer_s5s8_teid: u32,
)
    ensures
        spec_update_node(
            n,
            s11_seq,
            s5s8_seq,
            my_s11_teid,
            my_s5s8_teid,
            peer_s11_teid,
            peer_s5s8_teid,
        ).status == n.status + 1,
{
}

} // verus!

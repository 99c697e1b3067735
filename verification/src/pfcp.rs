//! Fixed-header decoding of the user-plane path control protocol that
//! shares the capture with the tunneling protocol.  It is decoded only to
//! label frames in capture summaries; the call-flow engine ignores it.

use vstd::prelude::*;

use crate::pfcp_ie::PfcpIe;
use crate::types::{be16, be24, read_be16, read_be24, PacketSummary};

verus! {

/// Decoded fixed fields of one path-control message.
#[derive(Debug)]
pub struct PfcpHeader {
    pub version: u8,
    pub fo_flag: bool,
    pub mp_flag: bool,
    pub s_flag: bool,
    pub msg_type: u8,
    pub msg_len: u16,
    pub seid: Option<u64>,
    pub seq: u32,
    pub mp: Option<u8>,
}

impl PfcpHeader {
    /// An all-zero header with no optional fields.
    pub fn new() -> (h: PfcpHeader)
        ensures
            h.version == 0,
            h.fo_flag == false,
            h.mp_flag == false,
            h.s_flag == false,
            h.msg_type == 0,
            h.msg_len == 0,
            h.seid is None,
            h.seq == 0,
            h.mp is None,
    {
        PfcpHeader {
            version: 0,
            fo_flag: false,
            mp_flag: false,
            s_flag: false,
            msg_type: 0,
            msg_len: 0,
            seid: None,
            seq: 0,
            mp: None,
        }
    }
}

/// Decoded fields of one path-control message with its elements.
#[derive(Debug)]
pub struct PfcpInfo {
    pub version: u8,
    pub fo_flag: bool,
    pub mp_flag: bool,
    pub s_flag: bool,
    pub msg_type: u8,
    pub msg_len: u16,
    pub seid: Option<u64>,
    pub seq: u32,
    pub mp: Option<u8>,
    pub ies: Vec<PfcpIe>,
}

/// Name of a path-control message-type code; unknown codes map to
/// `"Unknown"`.
pub open spec fn spec_pfcp_msg_type_name(t: u8) -> Seq<char> {
    if t == 1 {
        "Heartbeat Request"@
    } else if t == 2 {
        "Heartbeat Response"@
    } else if t == 5 {
        "Association Setup Request"@
    } else if t == 6 {
        "Association Setup Response"@
    } else if t == 50 {
        "Session Establishment Request"@
    } else if t == 51 {
        "Session Establishment Response"@
    } else if t == 52 {
        "Session Modification Request"@
    } else if t == 53 {
        "Session Modification Response"@
    } else if t == 54 {
        "Session Deletion Request"@
    } else if t == 55 {
        "Session Deletion Response"@
    } else if t == 56 {
        "Session Report Request"@
    } else if t == 57 {
        "Session Report Response"@
    } else {
        "Unknown"@
    }
}

/// Human-readable name of a path-control message-type code.
pub fn pfcp_msg_type_name(t: u8) -> (s: String)
    ensures
        s@ == spec_pfcp_msg_type_name(t),
{
    if t == 1 {
        String::from_str("Heartbeat Request")
    } else if t == 2 {
        String::from_str("Heartbeat Response")
    } else if t == 5 {
        String::from_str("Association Setup Request")
    } else if t == 6 {
        String::from_str("Association Setup Response")
    } else if t == 50 {
        String::from_str("Session Establishment Request")
    } else if t == 51 {
        String::from_str("Session Establishment Response")
    } else if t == 52 {
        String::from_str("Session Modification Request")
    } else if t == 53 {
        String::from_str("Session Modification Response")
    } else if t == 54 {
        String::from_str("Session Deletion Request")
    } else if t == 55 {
        String::from_str("Session Deletion Response")
    } else if t == 56 {
        String::from_str("Session Report Request")
    } else if t == 57 {
        String::from_str("Session Report Response")
    } else {
        String::from_str("Unknown")
    }
}

/// Whether the session-id presence flag is set in the flags byte.
pub open spec fn spec_pfcp_s_flag(flags: u8) -> bool {
    flags & 0x01 == 1
}

/// Whether the message-priority presence flag is set in the flags byte.
pub open spec fn spec_pfcp_mp_flag(flags: u8) -> bool {
    (flags >> 1) & 0x01 == 1
}

/// Fixed-header length implied by the flags byte: 8 bytes, plus 8 for the
/// session id if present, plus 1 for the priority field if present.
pub open spec fn spec_pfcp_hdr_len(flags: u8) -> int {
    8 + (if spec_pfcp_s_flag(flags) {
        8int
    } else {
        0int
    }) + (if spec_pfcp_mp_flag(flags) {
        1int
    } else {
        0int
    })
}

/// Whether the input holds the whole fixed header its flags byte declares.
pub open spec fn spec_pfcp_head_ok(data: Seq<u8>) -> bool {
    data.len() >= 1 && data.len() >= spec_pfcp_hdr_len(data[0])
}

/// Field-wise description of a decoded path-control header.
pub open spec fn spec_pfcp_header_matches(h: PfcpHeader, data: Seq<u8>) -> bool
    recommends
        spec_pfcp_head_ok(data),
{
    let flags = data[0];
    let s = spec_pfcp_s_flag(flags);
    let seq_at = if s {
        12int
    } else {
        4int
    };
    h.version == (flags >> 5) & 0x07 && h.fo_flag == ((flags >> 2) & 0x01 == 1) && h.mp_flag
        == spec_pfcp_mp_flag(flags) && h.s_flag == s && h.msg_type == data[1] && h.msg_len == be16(
        data[2],
        data[3],
    ) && (if s {
        h.seid matches Some(v) && v == (crate::types::be32(data[4], data[5], data[6], data[7])
            as u64 * 0x100000000 + crate::types::be32(data[8], data[9], data[10], data[11]) as u64)
            as u64
    } else {
        h.seid is None
    }) && h.seq == be24(data[seq_at], data[seq_at + 1], data[seq_at + 2]) && (if spec_pfcp_mp_flag(
        flags,
    ) {
        h.mp matches Some(m) && m == (data[seq_at + 3] >> 4) & 0x0f
    } else {
        h.mp is None
    })
}

/// Decodes the fixed header of a path-control message and labels the
/// summary row with the message-type name.  Fails exactly when the input
/// is shorter than the header its flags byte declares.
pub fn parse_pfcp(input: &[u8], packet: &mut PacketSummary) -> (r: Result<
    (PfcpHeader, usize),
    String,
>)
    ensures
        r is Ok <==> spec_pfcp_head_ok(input@),
        r matches Ok((h, n)) ==> spec_pfcp_header_matches(h, input@) && n == spec_pfcp_hdr_len(
            input@[0],
        ) && final(packet).description@ == spec_pfcp_msg_type_name(input@[1]),
        final(packet).id == old(packet).id,
        final(packet).ts == old(packet).ts,
        final(packet).src_ip == old(packet).src_ip,
        final(packet).dst_ip == old(packet).dst_ip,
        final(packet).src_port == old(packet).src_port,
        final(packet).dst_port == old(packet).dst_port,
        final(packet).protocol == old(packet).protocol,
        final(packet).length == old(packet).length,
        r is Err ==> *final(packet) == *old(packet),
{
    if input.len() < 8 {
        return Err(String::from_str("PFCP header too short"));
    }
    let flags = input[0];
    let s_flag = (flags & 0x01) == 1;
    let mp_flag = ((flags >> 1) & 0x01) == 1;
    let mut need: usize = 8;
    if s_flag {
        need += 8;
    }
    if mp_flag {
        need += 1;
    }
    if input.len() < need {
        return Err(String::from_str("PFCP header too short"));
    }
    let version = (flags >> 5) & 0x07;
    let fo_flag = ((flags >> 2) & 0x01) == 1;
    let msg_type = input[1];
    let msg_len = read_be16(input[2], input[3]);
    let (seid, seq_at): (Option<u64>, usize) = if s_flag {
        let hi = crate::types::read_be32(input[4], input[5], input[6], input[7]);
        let lo = crate::types::read_be32(input[8], input[9], input[10], input[11]);
        (Some((hi as u64) * 0x100000000 + (lo as u64)), 12)
    } else {
        (None, 4)
    };
    let seq = read_be24(input[seq_at], input[seq_at + 1], input[seq_at + 2]);
    let mp: Option<u8> = if mp_flag {
        Some((input[seq_at + 3] >> 4) & 0x0f)
    } else {
        None
    };
    packet.description = pfcp_msg_type_name(msg_type);
    Ok((PfcpHeader { version, fo_flag, mp_flag, s_flag, msg_type, msg_len, seid, seq, mp }, need))
}

} // verus!

//! Fixed-header decoding of the tunneling control protocol.
//!
//! A message starts with one flags byte (version in the top three bits, then
//! the piggyback, tunnel-id and message-priority presence flags), one
//! message-type byte, a big-endian 16-bit message length, an optional
//! big-endian 32-bit tunnel endpoint id, a big-endian 24-bit sequence
//! number, an optional priority nibble, and one spare byte.  Length checks
//! are incremental: how many bytes are structurally required is only known
//! once the flags byte has been read.

use vstd::prelude::*;

use crate::addr::{spec_dec, u32_dec_string};
use crate::gtpv2_types::{msg_type_name, spec_msg_type_name};
use crate::types::{GtpInfo, PacketSummary};

verus! {

/// Decoded fixed fields of one tunneling-protocol message.
pub struct GtpHeader {
    pub version: u8,
    pub p_flag: bool,
    pub t_flag: bool,
    pub mp_flag: bool,
    pub msg_type: u8,
    pub msg_len: u16,
    pub teid: Option<u32>,
    pub seq: u32,
    pub mp: Option<u8>,
}

impl GtpHeader {
    /// An all-zero header with no optional fields.
    pub fn new() -> (h: GtpHeader)
        ensures
            h == (GtpHeader {
                version: 0u8,
                p_flag: false,
                t_flag: false,
                mp_flag: false,
                msg_type: 0u8,
                msg_len: 0u16,
                teid: None::<u32>,
                seq: 0u32,
                mp: None::<u8>,
            }),
    {
        GtpHeader {
            version: 0,
            p_flag: false,
            t_flag: false,
            mp_flag: false,
            msg_type: 0,
            msg_len: 0,
            teid: None,
            seq: 0,
            mp: None,
        }
    }
}

/// Whether the tunnel-id presence flag is set in the flags byte.
pub open spec fn spec_t_flag(flags: u8) -> bool {
    (flags >> 3) & 0x01 == 1
}

/// Whether the message-priority presence flag is set in the flags byte.
pub open spec fn spec_mp_flag(flags: u8) -> bool {
    (flags >> 2) & 0x01 == 1
}

/// Fixed-header length implied by the flags byte: 8 bytes, plus 4 for the
/// tunnel id if present, plus 1 for the priority field if present.
pub open spec fn spec_gtp_hdr_len(flags: u8) -> int {
    8 + (if spec_t_flag(flags) {
        4int
    } else {
        0int
    }) + (if spec_mp_flag(flags) {
        1int
    } else {
        0int
    })
}

/// Number of bytes the fixed-header decoder consumes, summed field by
/// field: flags, message type, length, optional tunnel id, sequence
/// number, optional priority, spare.
pub open spec fn spec_head_consumed(flags: u8) -> int {
    1 + 1 + 2 + (if spec_t_flag(flags) {
        4int
    } else {
        0int
    }) + 3 + (if spec_mp_flag(flags) {
        1int
    } else {
        0int
    }) + 1
}

/// Whether the input holds the whole fixed header its flags byte declares.
pub open spec fn spec_head_ok(data: Seq<u8>) -> bool {
    data.len() >= 1 && data.len() >= spec_gtp_hdr_len(data[0])
}

/// The decoded fixed header of a well-formed input.
pub open spec fn spec_gtp_header(data: Seq<u8>) -> GtpHeader
    recommends
        spec_head_ok(data),
{
    let flags = data[0];
    let t = spec_t_flag(flags);
    let seq_at = if t {
        8int
    } else {
        4int
    };
    GtpHeader {
        version: (flags >> 5) & 0x07,
        p_flag: (flags >> 4) & 0x01 == 1,
        t_flag: t,
        mp_flag: spec_mp_flag(flags),
        msg_type: data[1],
        msg_len: crate::types::be16(data[2], data[3]),
        teid: if t {
            Some(crate::types::be32(data[4], data[5], data[6], data[7]))
        } else {
            None
        },
        seq: crate::types::be24(data[seq_at], data[seq_at + 1], data[seq_at + 2]),
        mp: if spec_mp_flag(flags) {
            Some((data[seq_at + 3] >> 4) & 0x0f)
        } else {
            None
        },
    }
}

/// The fixed-header length of a message equals the number of bytes its
/// decoder consumes, for every combination of the tunnel-id and priority
/// flags.
pub proof fn lemma_header_length_round_trip(data: Seq<u8>)
    requires
        spec_head_ok(data),
    ensures
        spec_gtp_hdr_len(data[0]) == spec_head_consumed(data[0]),
{
}

/// Decodes the fixed header and reports how many bytes it consumed.
/// Fails exactly when the input is shorter than the header its flags
/// byte declares.
pub fn head_parser(input: &[u8]) -> (r: Result<(GtpHeader, usize), String>)
    ensures
        spec_head_ok(input@) <==> r is Ok,
        r matches Ok((h, n)) ==> h == spec_gtp_header(input@) && n == spec_gtp_hdr_len(input@[0]),
        r matches Err(e) ==> e@ == "GTP header too short"@,
{
    if input.len() < 8 {
        return Err(String::from_str("GTP header too short"));
    }
    let flags = input[0];
    let t_flag = ((flags >> 3) & 0x01) == 1;
    let mp_flag = ((flags >> 2) & 0x01) == 1;
    let mut need: usize = 8;
    if t_flag {
        need += 4;
    }
    if mp_flag {
        need += 1;
    }
    if input.len() < need {
        return Err(String::from_str("GTP header too short"));
    }
    let version = (flags >> 5) & 0x07;
    let p_flag = ((flags >> 4) & 0x01) == 1;
    let msg_type = input[1];
    let msg_len = crate::types::read_be16(input[2], input[3]);
    let (teid, seq_at): (Option<u32>, usize) = if t_flag {
        (Some(crate::types::read_be32(input[4], input[5], input[6], input[7])), 8)
    } else {
        (None, 4)
    };
    let seq = crate::types::read_be24(input[seq_at], input[seq_at + 1], input[seq_at + 2]);
    let mp: Option<u8> = if mp_flag {
        Some((input[seq_at + 3] >> 4) & 0x0f)
    } else {
        None
    };
    Ok((GtpHeader { version, p_flag, t_flag, mp_flag, msg_type, msg_len, teid, seq, mp }, need))
}

/// Fixed-header length read off the first byte alone.
pub fn get_gtp_hdr_len(input: &[u8]) -> (n: usize)
    requires
        input@.len() >= 1,
    ensures
        n == spec_gtp_hdr_len(input@[0]),
{
    let flags = input[0];
    let t_flag = ((flags >> 3) & 0x01) == 1;
    let mp_flag = ((flags >> 2) & 0x01) == 1;
    let mut len: usize = 8;
    if t_flag {
        len += 4;
    }
    if mp_flag {
        len += 1;
    }
    len
}

/// Whether the input holds the fixed header and the whole message body its
/// length field declares.  The length field counts from the end of the
/// mandatory 4-byte prefix, so it must cover at least the tunnel id and
/// sequence/spare words.
pub open spec fn spec_whole_msg_ok(data: Seq<u8>) -> bool {
    let add = 4 + (if spec_t_flag(data[0]) {
        4int
    } else {
        0int
    });
    spec_head_ok(data) && spec_gtp_header(data).msg_len >= add && data.len() >= spec_gtp_hdr_len(
        data[0],
    ) + spec_gtp_header(data).msg_len - add
}

/// Bytes consumed by a whole-message decode: the fixed header plus the
/// declared remainder of the message body.
pub open spec fn spec_whole_msg_consumed(data: Seq<u8>) -> int
    recommends
        spec_whole_msg_ok(data),
{
    let add = 4 + (if spec_t_flag(data[0]) {
        4int
    } else {
        0int
    });
    spec_gtp_hdr_len(data[0]) + spec_gtp_header(data).msg_len - add
}

/// Decodes the fixed header and skips the rest of the message body, so the
/// returned count points at the next message.  Fails exactly when the
/// fixed header is truncated, the length field is smaller than the
/// mandatory fields it must cover, or the body is truncated.
pub fn get_gtp_header(input: &[u8]) -> (r: Result<(GtpHeader, usize), String>)
    ensures
        spec_whole_msg_ok(input@) <==> r is Ok,
        r matches Ok((h, n)) ==> h == spec_gtp_header(input@) && n == spec_whole_msg_consumed(
            input@,
        ),
{
    let (head, hdr_len) = match head_parser(input) {
        Ok(v) => v,
        Err(e) => {
            return Err(e);
        },
    };
    let mut add: u16 = 4;
    if head.t_flag {
        add += 4;
    }
    if head.msg_len < add {
        return Err(String::from_str("GTP message length too small"));
    }
    let body = (head.msg_len - add) as usize;
    if input.len() - hdr_len < body {
        return Err(String::from_str("GTP message truncated"));
    }
    Ok((head, hdr_len + body))
}

/// Tunnel endpoint id of a message, read without decoding the rest of the
/// header.  Fails exactly when the input is shorter than the words it
/// must read or the tunnel-id flag is clear.
pub fn get_gtp_teid(input: &[u8]) -> (r: Result<(usize, u32), String>)
    ensures
        r is Ok <==> input@.len() >= 8 && spec_t_flag(input@[0]),
        r matches Ok((n, teid)) ==> n == 8 && teid == crate::types::be32(
            input@[4],
            input@[5],
            input@[6],
            input@[7],
        ),
{
    if input.len() < 8 {
        return Err(String::from_str("GTP header too short"));
    }
    let flags = input[0];
    let t_flag = ((flags >> 3) & 0x01) == 1;
    if !t_flag {
        return Err(String::from_str("No TEID in GTP header"));
    }
    Ok((8, crate::types::read_be32(input[4], input[5], input[6], input[7])))
}

/// Message-type name of a message, read off the second byte alone.
/// Fails exactly when fewer than two bytes are given.
pub fn get_msg_type_from_gtpc(input: &[u8]) -> (r: Result<(usize, String), String>)
    ensures
        r is Ok <==> input@.len() >= 2,
        r matches Ok((n, s)) ==> n == 2 && s@ == spec_msg_type_name(input@[1]),
{
    if input.len() < 2 {
        return Err(String::from_str("GTP message type out of reach"));
    }
    Ok((2, msg_type_name(input[1])))
}


/// Decodes the fixed header and labels the summary row with the message
/// name and numeric type, as `name [type]`.  Fails exactly when the fixed
/// header is truncated.
pub fn parse_gtpc(input: &[u8], packet: &mut PacketSummary) -> (r: Result<(GtpHeader, usize), String>)
    ensures
        spec_head_ok(input@) <==> r is Ok,
        r matches Ok((h, n)) ==> h == spec_gtp_header(input@) && n == spec_gtp_hdr_len(input@[0])
            && final(packet).description@ == spec_msg_type_name(input@[1]) + " ["@ + spec_dec(
            input@[1] as nat,
        ) + "]"@,
        final(packet).id == old(packet).id,
        final(packet).ts == old(packet).ts,
        final(packet).src_ip == old(packet).src_ip,
        final(packet).dst_ip == old(packet).dst_ip,
        final(packet).src_port == old(packet).src_port,
        final(packet).dst_port == old(packet).dst_port,
        final(packet).protocol == old(packet).protocol,
        final(packet).length == old(packet).length,
        r is Err ==> *final(packet) == *old(packet),
{
    let (head, n) = match head_parser(input) {
        Ok(v) => v,
        Err(e) => {
            return Err(e);
        },
    };
    let mut desc = msg_type_name(head.msg_type);
    desc.append(" [");
    desc.append(u32_dec_string(head.msg_type as u32).as_str());
    desc.append("]");
    proof {
        reveal_strlit(" [");
        reveal_strlit("]");
    }
    packet.description = desc;
    Ok((head, n))
}

/// Decodes the fixed header into a detail record carrying the raw message
/// bytes; elements are decoded separately.  Fails exactly when the fixed
/// header is truncated or the input is shorter than the declared message.
pub fn parse_gtpc_detail(input: &[u8]) -> (r: Result<(GtpInfo, usize), String>)
    ensures
        r is Ok <==> spec_head_ok(input@) && spec_gtp_header(input@).msg_len as int <= input@.len(),
        r matches Ok((g, n)) ==> {
            let h = spec_gtp_header(input@);
            &&& n == spec_gtp_hdr_len(input@[0])
            &&& g.version == h.version
            &&& g.p_flag == h.p_flag
            &&& g.t_flag == h.t_flag
            &&& g.mp_flag == h.mp_flag
            &&& g.msg_type == h.msg_type
            &&& g.msg_type_str@ == spec_msg_type_name(h.msg_type)
            &&& g.msg_len == h.msg_len
            &&& g.teid == h.teid
            &&& g.seq == h.seq
            &&& g.mp == h.mp
            &&& g.ies@.len() == 0
            &&& g.raw@ == input@.subrange(0, h.msg_len as int)
        },
{
    let (head, n) = match head_parser(input) {
        Ok(v) => v,
        Err(e) => {
            return Err(e);
        },
    };
    if head.msg_len as usize > input.len() {
        return Err(String::from_str("GTP message truncated"));
    }
    let raw = vstd::slice::slice_to_vec(&input[0..head.msg_len as usize]);
    let info = GtpInfo {
        version: head.version,
        p_flag: head.p_flag,
        t_flag: head.t_flag,
        mp_flag: head.mp_flag,
        msg_type: head.msg_type,
        msg_type_str: msg_type_name(head.msg_type),
        msg_len: head.msg_len,
        teid: head.teid,
        seq: head.seq,
        mp: head.mp,
        ies: Vec::new(),
        raw,
    };
    Ok((info, n))
}

} // verus!

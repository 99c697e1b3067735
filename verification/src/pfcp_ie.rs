//! Information-element decoding of the user-plane path control protocol:
//! a big-endian 16-bit type, a big-endian 16-bit length, and `length`
//! bytes of value, with grouped elements nesting a further list.

use vstd::prelude::*;

use crate::addr::{ipv4_text, spec_ipv4_text};
use crate::types::{be16, be32, read_be16, read_be32};

verus! {

/// The session-endpoint element's type code.
pub const PFCP_IE_F_SEID: u16 = 57;

/// Nesting cap for grouped path-control elements.
pub const MAX_PFCP_IE_DEPTH: u32 = 8;

/// Session endpoint descriptor: address-family flags, session id, and the
/// optional addresses in text form.
#[derive(Debug, Clone)]
pub struct FSeidValue {
    pub v4: bool,
    pub v6: bool,
    pub seid: u32,
    pub ipv4: Option<String>,
    pub ipv6: Option<String>,
}

impl FSeidValue {
    /// A descriptor with both address families claimed and nothing decoded.
    pub fn new() -> (r: FSeidValue)
        ensures
            r.v4 == true,
            r.v6 == true,
            r.seid == 0,
            r.ipv4 is None,
            r.ipv6 is None,
    {
        FSeidValue { v4: true, v6: true, seid: 0, ipv4: None, ipv6: None }
    }
}

/// The tagged value of one path-control element.
#[derive(Debug)]
pub enum PfcpIeValue {
    Raw(Vec<u8>),
    Uint8(u8),
    Uint16(u16),
    Uint32(u32),
    FSeid(FSeidValue),
    SubIeList(Vec<PfcpIe>),
    Nothing,
}

/// One decoded path-control element.
#[derive(Debug)]
pub struct PfcpIe {
    pub ie_type: u16,
    pub type_str: String,
    pub ie_len: u16,
    pub ie_value: PfcpIeValue,
    pub raw: Vec<u8>,
}

/// Name of a path-control element code; unknown codes map to `"Unknown"`.
pub open spec fn spec_pfcp_ie_type_name(t: u16) -> Seq<char> {
    if t == 1 {
        "Create PDR"@
    } else if t == 2 {
        "PDI"@
    } else if t == 3 {
        "Create FAR"@
    } else if t == 4 {
        "Forwarding Parameters"@
    } else if t == 19 {
        "Cause"@
    } else if t == 57 {
        "F-SEID"@
    } else if t == 60 {
        "Node ID"@
    } else if t == 96 {
        "Recovery Time Stamp"@
    } else {
        "Unknown"@
    }
}

/// Human-readable name of a path-control element code.
pub fn pfcp_ie_type_name(t: u16) -> (s: String)
    ensures
        s@ == spec_pfcp_ie_type_name(t),
{
    if t == 1 {
        String::from_str("Create PDR")
    } else if t == 2 {
        String::from_str("PDI")
    } else if t == 3 {
        String::from_str("Create FAR")
    } else if t == 4 {
        String::from_str("Forwarding Parameters")
    } else if t == 19 {
        String::from_str("Cause")
    } else if t == 57 {
        String::from_str("F-SEID")
    } else if t == 60 {
        String::from_str("Node ID")
    } else if t == 96 {
        String::from_str("Recovery Time Stamp")
    } else {
        String::from_str("Unknown")
    }
}

/// Whether a path-control element code carries a nested element list.
pub open spec fn spec_pfcp_ie_is_grouped(t: u16) -> bool {
    t == 1 || t == 2 || t == 3 || t == 4
}

/// Whether a path-control element code is decoded as a grouped element.
pub fn pfcp_ie_is_grouped(t: u16) -> (r: bool)
    ensures
        r == spec_pfcp_ie_is_grouped(t),
{
    t == 1 || t == 2 || t == 3 || t == 4
}

/// Whether a session-endpoint value is complete: one flag byte, four
/// session-id bytes, then four address bytes if the IPv4 flag is set and
/// sixteen more if the IPv6 flag is set.
pub open spec fn spec_fseid_ok(data: Seq<u8>) -> bool {
    let v4 = data.len() >= 1 && data[0] & 0x02 != 0;
    let v6 = data.len() >= 1 && data[0] & 0x01 != 0;
    data.len() >= 5 && data.len() >= 5 + (if v4 {
        4int
    } else {
        0int
    }) + (if v6 {
        16int
    } else {
        0int
    })
}

/// Field-wise description of a decoded session-endpoint value.
pub open spec fn spec_fseid_matches(f: FSeidValue, data: Seq<u8>) -> bool
    recommends
        spec_fseid_ok(data),
{
    let v4 = data[0] & 0x02 != 0;
    let v6 = data[0] & 0x01 != 0;
    let v6_at = if v4 {
        9int
    } else {
        5int
    };
    f.v4 == v4 && f.v6 == v6 && f.seid == be32(data[1], data[2], data[3], data[4]) && (if v4 {
        f.ipv4 matches Some(a) && a@ == spec_ipv4_text(be32(data[5], data[6], data[7], data[8]))
    } else {
        f.ipv4 is None
    }) && (if v6 {
        f.ipv6 matches Some(a) && a@ == crate::addr::spec_ipv6_text(
            data.subrange(v6_at, v6_at + 16),
        )
    } else {
        f.ipv6 is None
    })
}

/// Decodes a session-endpoint value.  Fails exactly when the input is
/// shorter than the fields its flag byte declares.
pub fn decode_fseid(input: &[u8]) -> (r: Result<PfcpIeValue, String>)
    ensures
        r is Ok <==> spec_fseid_ok(input@),
        r matches Ok(v) ==> v matches PfcpIeValue::FSeid(f) && spec_fseid_matches(f, input@),
{
    if input.len() == 0 {
        return Err(String::from_str("Input is empty"));
    }
    let v4 = input[0] & 0x02 != 0;
    let v6 = input[0] & 0x01 != 0;
    if input.len() < 5 {
        return Err(String::from_str("F-SEID too short"));
    }
    let seid = read_be32(input[1], input[2], input[3], input[4]);
    let mut pos: usize = 5;
    let ipv4: Option<String> = if v4 {
        if input.len() < 9 {
            return Err(String::from_str("F-SEID too short for IPv4"));
        }
        pos = 9;
        Some(ipv4_text(read_be32(input[5], input[6], input[7], input[8])))
    } else {
        None
    };
    let ipv6: Option<String> = if v6 {
        if input.len() < pos + 16 {
            return Err(String::from_str("F-SEID too short for IPv6"));
        }
        Some(crate::addr::ipv6_text(&input[pos..pos + 16]))
    } else {
        None
    };
    Ok(PfcpIeValue::FSeid(FSeidValue { v4, v6, seid, ipv4, ipv6 }))
}

/// Header fields, value bytes and raw bytes of one path-control element.
pub struct PfcpFrame {
    pub t: u16,
    pub len: u16,
    pub val: Seq<u8>,
    pub raw: Seq<u8>,
}

/// Whether the input starts with a complete element: a four-byte header
/// and the value bytes its length field declares.
pub open spec fn spec_pfcp_frame_fits(data: Seq<u8>) -> bool {
    data.len() >= 4 && 4 + be16(data[2], data[3]) as int <= data.len()
}

/// The first element's frame.
pub open spec fn spec_pfcp_frame_at(data: Seq<u8>) -> PfcpFrame
    recommends
        spec_pfcp_frame_fits(data),
{
    let len = be16(data[2], data[3]);
    PfcpFrame {
        t: be16(data[0], data[1]),
        len,
        val: data.subrange(4, 4 + len as int),
        raw: data.subrange(4, 4 + len as int),
    }
}

/// The element frames of a byte string, with the same early-stop and
/// hard-failure rules as the tunneling protocol's elements.
pub open spec fn spec_pfcp_frames(data: Seq<u8>, hard: bool) -> Option<Seq<PfcpFrame>>
    decreases data.len(),
{
    if data.len() < 4 {
        Some(seq![])
    } else if !spec_pfcp_frame_fits(data) {
        if hard {
            None
        } else {
            Some(seq![])
        }
    } else {
        let f = spec_pfcp_frame_at(data);
        let rest = data.subrange(4 + f.len as int, data.len() as int);
        if rest.len() < 4 {
            Some(seq![f])
        } else {
            match spec_pfcp_frames(rest, hard) {
                Some(fs) => Some(seq![f] + fs),
                None => None,
            }
        }
    }
}

/// Exact description of a decoded leaf value against its type code and
/// value bytes.
pub open spec fn spec_pfcp_leaf_matches(v: PfcpIeValue, t: u16, val: Seq<u8>) -> bool {
    if t == PFCP_IE_F_SEID {
        if spec_fseid_ok(val) {
            v matches PfcpIeValue::FSeid(f) && spec_fseid_matches(f, val)
        } else {
            v is Nothing
        }
    } else if val.len() == 1 {
        v == PfcpIeValue::Uint8(val[0])
    } else if val.len() == 2 {
        v == PfcpIeValue::Uint16(be16(val[0], val[1]))
    } else if val.len() == 4 {
        v == PfcpIeValue::Uint32(be32(val[0], val[1], val[2], val[3]))
    } else {
        v matches PfcpIeValue::Raw(r) && r@ == val
    }
}

/// Exact description of one decoded element against its frame.
pub open spec fn spec_pfcp_ie_matches(ie: PfcpIe, f: PfcpFrame, depth: nat) -> bool
    decreases depth, 0int,
{
    ie.ie_type == f.t && ie.ie_len == f.len && ie.type_str@ == spec_pfcp_ie_type_name(f.t)
        && ie.raw@ == f.raw && (if spec_pfcp_ie_is_grouped(f.t) {
        ie.ie_value matches PfcpIeValue::SubIeList(l) && (if depth == 0 {
            l@.len() == 0
        } else {
            spec_pfcp_ies_match(l@, f.val, (depth - 1) as nat)
        })
    } else {
        spec_pfcp_leaf_matches(ie.ie_value, f.t, f.val)
    })
}

/// Exact description of a decoded element list against the byte string it
/// was soft-decoded from.
pub open spec fn spec_pfcp_ies_match(ies: Seq<PfcpIe>, data: Seq<u8>, depth: nat) -> bool
    decreases depth, 1int,
{
    match spec_pfcp_frames(data, false) {
        Some(fs) => ies.len() == fs.len() && forall|k: int|
            0 <= k < fs.len() ==> spec_pfcp_ie_matches(#[trigger] ies[k], fs[k], depth),
        None => false,
    }
}

/// Exact description of a decoded element list against the byte string it
/// was hard-decoded from.
pub open spec fn spec_pfcp_ies_match_hard(ies: Seq<PfcpIe>, data: Seq<u8>) -> bool {
    match spec_pfcp_frames(data, true) {
        Some(fs) => ies.len() == fs.len() && forall|k: int|
            0 <= k < fs.len() ==> spec_pfcp_ie_matches(
                #[trigger] ies[k],
                fs[k],
                MAX_PFCP_IE_DEPTH as nat,
            ),
        None => false,
    }
}

/// Decodes the first element of the input, nesting grouped elements down
/// to `depth`.  Fails exactly when the input is shorter than a header or
/// the declared value does not fit.
fn parse_pfcp_ie_at(input: &[u8], depth: u32) -> (r: Result<(PfcpIe, usize), String>)
    ensures
        r is Ok <==> spec_pfcp_frame_fits(input@),
        r matches Ok((ie, n)) ==> spec_pfcp_ie_matches(ie, spec_pfcp_frame_at(input@), depth as nat)
            && n == 4 + spec_pfcp_frame_at(input@).len as int && n <= input@.len(),
    decreases depth, input@.len(), 0int,
{
    if input.len() < 4 {
        return Err(String::from_str("PFCP IE header truncated"));
    }
    let ie_type = read_be16(input[0], input[1]);
    let ie_len = read_be16(input[2], input[3]) as usize;
    if ie_len > input.len() - 4 {
        return Err(String::from_str("PFCP IE value truncated"));
    }
    let total = 4 + ie_len;
    let val = &input[4..total];
    let raw = vstd::slice::slice_to_vec(val);
    let ie_value: PfcpIeValue = if pfcp_ie_is_grouped(ie_type) {
        if depth == 0 {
            PfcpIeValue::SubIeList(Vec::new())
        } else {
            PfcpIeValue::SubIeList(parse_pfcp_sub_ies(val, depth - 1))
        }
    } else if ie_type == PFCP_IE_F_SEID {
        match decode_fseid(val) {
            Ok(v) => v,
            Err(_) => PfcpIeValue::Nothing,
        }
    } else if ie_len == 1 {
        PfcpIeValue::Uint8(val[0])
    } else if ie_len == 2 {
        PfcpIeValue::Uint16(read_be16(val[0], val[1]))
    } else if ie_len == 4 {
        PfcpIeValue::Uint32(read_be32(val[0], val[1], val[2], val[3]))
    } else {
        PfcpIeValue::Raw(vstd::slice::slice_to_vec(val))
    };
    let ie = PfcpIe {
        ie_type,
        type_str: pfcp_ie_type_name(ie_type),
        ie_len: ie_len as u16,
        ie_value,
        raw,
    };
    Ok((ie, total))
}

/// Soft-decodes an element list: stops, keeping what was read, once fewer
/// than four bytes remain or an element's declared value does not fit.
fn parse_pfcp_sub_ies(input: &[u8], depth: u32) -> (ies: Vec<PfcpIe>)
    ensures
        spec_pfcp_ies_match(ies@, input@, depth as nat),
    decreases depth, input@.len(), 1int,
{
    if input.len() < 4 {
        return Vec::new();
    }
    match parse_pfcp_ie_at(input, depth) {
        Err(_) => Vec::new(),
        Ok((ie, n)) => {
            let rest = &input[n..input.len()];
            if rest.len() < 4 {
                let mut v = Vec::new();
                v.push(ie);
                v
            } else {
                let mut v = parse_pfcp_sub_ies(rest, depth);
                let ghost tail = v@;
                v.insert(0, ie);
                proof {
                    assert(v@.drop_first() =~= tail);
                    assert(v@ =~= seq![ie] + tail);
                }
                v
            }
        },
    }
}

/// Decodes the flat element list of a path-control message body.  Stops,
/// keeping what was read, once fewer than four bytes remain; fails exactly
/// when an element's declared value does not fit.
pub fn parse_all_pfcp_ies(input: &[u8]) -> (r: Result<Vec<PfcpIe>, String>)
    ensures
        r is Ok <==> spec_pfcp_frames(input@, true) is Some,
        r matches Ok(ies) ==> spec_pfcp_ies_match_hard(ies@, input@),
    decreases input@.len(),
{
    if input.len() < 4 {
        return Ok(Vec::new());
    }
    match parse_pfcp_ie_at(input, MAX_PFCP_IE_DEPTH) {
        Err(e) => Err(e),
        Ok((ie, n)) => {
            let rest = &input[n..input.len()];
            if rest.len() < 4 {
                let mut v = Vec::new();
                v.push(ie);
                Ok(v)
            } else {
                match parse_all_pfcp_ies(rest) {
                    Err(e) => Err(e),
                    Ok(mut v) => {
                        let ghost tail = v@;
                        v.insert(0, ie);
                        proof {
                            assert(v@.drop_first() =~= tail);
                            assert(v@ =~= seq![ie] + tail);
                        }
                        Ok(v)
                    },
                }
            }
        },
    }
}

} // verus!

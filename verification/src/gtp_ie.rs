//! Information-element decoding of the tunneling control protocol.
//!
//! An information element is one type byte, a big-endian 16-bit length, one
//! instance byte, and `length` bytes of value.  Values are decoded by type:
//! packed-decimal identities, access point names, bit-rate pairs, quality
//! of service, serving network, traffic filter templates, user location
//! info, tunnel endpoint descriptors, and grouped elements that nest a
//! further element list.

use vstd::prelude::*;

use crate::addr::{ipv4_text, ipv6_text, spec_dec, spec_ipv4_text, spec_ipv6_text, u32_dec_string};
use crate::gtpv2_types::{
    ie_is_grouped, ie_type_name, spec_ie_is_grouped, spec_ie_type_name, GTPV2C_IE_AMBR,
    GTPV2C_IE_APN, GTPV2C_IE_BEARER_CONTEXT, GTPV2C_IE_BEARER_QOS, GTPV2C_IE_BEARER_TFT,
    GTPV2C_IE_EBI, GTPV2C_IE_FTEID, GTPV2C_IE_IMSI, GTPV2C_IE_IP_ADDRESS, GTPV2C_IE_MEI,
    GTPV2C_IE_MSISDN, GTPV2C_IE_SERVING_NETWORK, GTPV2C_IE_ULI,
};
use crate::types::{be16, be32, read_be16, read_be32};

verus! {

/// Aggregate maximum bit rate: uplink and downlink.
#[derive(Clone, Copy, Debug)]
pub struct AmbrValue {
    pub ul: u32,
    pub dl: u32,
}

/// Tunnel endpoint descriptor: address-family flags, interface type,
/// tunnel id, and the optional addresses in text form.
#[derive(Clone, Debug)]
pub struct FTeidValue {
    pub v4: bool,
    pub v6: bool,
    pub iface_type: u8,
    pub teid: u32,
    pub ipv4: Option<String>,
    pub ipv6: Option<String>,
}

impl FTeidValue {
    /// A descriptor with both address families claimed and nothing decoded.
    pub fn new() -> (r: FTeidValue)
        ensures
            r.v4 == true,
            r.v6 == true,
            r.iface_type == 0,
            r.teid == 0,
            r.ipv4 is None,
            r.ipv6 is None,
    {
        FTeidValue { v4: true, v6: true, iface_type: 0, teid: 0, ipv4: None, ipv6: None }
    }
}

/// Mobile country code and mobile network code, as digit strings.
#[derive(Clone, Debug)]
pub struct ServingNetworkValue {
    pub mcc: String,
    pub mnc: String,
}

/// Bearer quality-of-service bundle.
#[derive(Clone, Copy, Debug)]
pub struct BearerQoSValue {
    pub pci: bool,
    pub pl: u8,
    pub pvi: bool,
    pub qci: u8,
    pub mbr_ul: u32,
    pub mbr_dl: u32,
    pub gbr_ul: u32,
    pub gbr_dl: u32,
}

/// Tracking area identity.
#[derive(Clone, Debug)]
pub struct TaiValue {
    pub mcc: String,
    pub mnc: String,
    pub tac: u16,
}

/// E-UTRAN cell global identifier.
#[derive(Clone, Debug)]
pub struct EcgiValue {
    pub mcc: String,
    pub mnc: String,
    pub eci: u32,
}

/// Cell global identification.
#[derive(Clone, Debug)]
pub struct CgiValue {
    pub mcc: String,
    pub mnc: String,
    pub lac: u16,
    pub ci: u16,
}

/// Service area identification.
#[derive(Clone, Debug)]
pub struct SaiValue {
    pub mcc: String,
    pub mnc: String,
    pub lac: u16,
    pub sac: u16,
}

/// Routing area identification.
#[derive(Clone, Debug)]
pub struct RaiValue {
    pub mcc: String,
    pub mnc: String,
    pub lac: u16,
    pub rac: u8,
}

/// Location area identification.
#[derive(Clone, Debug)]
pub struct LaiValue {
    pub mcc: String,
    pub mnc: String,
    pub lac: u16,
}

/// One typed traffic-filter component.
#[derive(Clone, Debug)]
pub enum PacketFilterComponent {
    Ipv4Addr { addr: String, mask: String },
    Ipv6Addr { addr: String, mask: String },
    Protocol { proto: u8 },
    SinglePort { port: u16 },
    PortRange { start: u16, end: u16 },
    SecParamIdx { spi: u32 },
    TypeOfService { value: u8, mask: u8 },
    FlowLabel { label: u32 },
    Unknown { t: u8, data: Vec<u8> },
    Nothing,
}

/// A traffic-filter component together with its type identifier.
#[derive(Clone, Debug)]
pub struct PacketFilterComponentList {
    pub pf_type_id: u8,
    pub components: PacketFilterComponent,
}

/// One packet filter of a traffic-filter template.
#[derive(Clone, Debug)]
pub struct PacketFilter {
    pub pf_dir: u8,
    pub pf_id: u8,
    pub pkt_prec: u8,
    pub pf_len: u8,
    pub packet_filter_component_list: Vec<PacketFilterComponentList>,
}

/// A traffic-filter template: operation code and its packet filters.
#[derive(Clone, Debug)]
pub struct BearerTFT {
    pub tft_op_code: u8,
    pub str_tft_op_code: String,
    pub e_bit: bool,
    pub num_filter: u8,
    pub packet_filter_list: Vec<PacketFilter>,
}

/// User location info: up to six sub-structures gated by presence flags.
#[derive(Clone, Debug)]
pub struct UliValue {
    pub has_tai: bool,
    pub has_ecgi: bool,
    pub has_lai: bool,
    pub has_rai: bool,
    pub has_sai: bool,
    pub has_cgi: bool,
    pub tai: Option<TaiValue>,
    pub ecgi: Option<EcgiValue>,
    pub lai: Option<LaiValue>,
    pub rai: Option<RaiValue>,
    pub sai: Option<SaiValue>,
    pub cgi: Option<CgiValue>,
}

/// The tagged value of one information element.
#[derive(Debug)]
pub enum GtpIeValue {
    Raw(Vec<u8>),
    Uint8(u8),
    Uint16(u16),
    Uint32(u32),
    Utf8String(String),
    Apn(String),
    Ipv4(String),
    Ipv6(String),
    Timer { unit: u8, value: u8 },
    Ambr(AmbrValue),
    FTeid(FTeidValue),
    ServingNetwork(ServingNetworkValue),
    BearerQoS(BearerQoSValue),
    UserLocationInfo(UliValue),
    BearerTFT(BearerTFT),
    SubIeList(Vec<GtpIe>),
    Nothing,
}

/// One decoded information element.
#[derive(Debug)]
pub struct GtpIe {
    pub ie_type: u8,
    pub type_str: String,
    pub length: u16,
    pub instance: u8,
    pub ie_value: GtpIeValue,
    pub raw: Vec<u8>,
}

/// Digit characters of a packed-decimal byte string: each byte holds the
/// earlier digit in its low nibble and the later digit in its high nibble,
/// and any nibble above nine (an odd-length or filler marker) is skipped.
pub open spec fn spec_bcd(data: Seq<u8>) -> Seq<char>
    decreases data.len(),
{
    if data.len() == 0 {
        seq![]
    } else {
        let low = data[0] & 0x0f;
        let high = (data[0] >> 4) & 0x0f;
        (if low <= 9 {
            seq![crate::addr::dec_digit(low as nat)]
        } else {
            seq![]
        }) + (if high <= 9 {
            seq![crate::addr::dec_digit(high as nat)]
        } else {
            seq![]
        }) + spec_bcd(data.drop_first())
    }
}

/// Mobile country code digits of the first two packed bytes.
pub open spec fn spec_mcc(d1: u8, d2: u8) -> Seq<char> {
    spec_dec((d1 & 0x0f) as nat) + spec_dec((d1 >> 4) as nat) + spec_dec((d2 & 0x0f) as nat)
}

/// Mobile network code digits: two digits when the third packed nibble is
/// the 0xF sentinel, three otherwise.
pub open spec fn spec_mnc(d2: u8, d3: u8) -> Seq<char> {
    let mnc1 = d2 >> 4;
    let mnc2 = d3 & 0x0f;
    let mnc3 = d3 >> 4;
    if mnc3 == 0xf {
        spec_dec(mnc1 as nat) + spec_dec(mnc2 as nat)
    } else {
        spec_dec(mnc1 as nat) + spec_dec(mnc2 as nat) + spec_dec(mnc3 as nat)
    }
}

/// Decodes a packed-decimal identity (subscriber identity, equipment
/// identity, directory number).  Fails exactly on empty input.
pub fn decode_bcd(input: &[u8]) -> (r: Result<GtpIeValue, String>)
    ensures
        r is Ok <==> input@.len() > 0,
        r matches Ok(v) ==> v matches GtpIeValue::Utf8String(s) && s@ == spec_bcd(input@),
{
    if input.len() == 0 {
        return Err(String::from_str("BCD input empty"));
    }
    let mut digits = String::new();
    let mut i: usize = 0;
    while i < input.len()
        invariant
            i <= input@.len(),
            digits@ == spec_bcd(input@.subrange(0, i as int)),
        decreases input@.len() - i,
    {
        let low = input[i] & 0x0f;
        let high = (input[i] >> 4) & 0x0f;
        if low <= 9 {
            digits.append(crate::addr::digit_str(low as u32));
        }
        if high <= 9 {
            digits.append(crate::addr::digit_str(high as u32));
        }
        proof {
            let pre = input@.subrange(0, i as int);
            let post = input@.subrange(0, i + 1int);
            lemma_bcd_snoc(input@, i as int);
            assert(post == pre + seq![input@[i as int]]);
        }
        i += 1;
    }
    proof {
        assert(input@.subrange(0, input@.len() as int) =~= input@);
    }
    Ok(GtpIeValue::Utf8String(digits))
}

/// Appending one byte to a packed-decimal string appends its digits.
proof fn lemma_bcd_snoc(data: Seq<u8>, i: int)
    requires
        0 <= i < data.len(),
    ensures
        spec_bcd(data.subrange(0, i + 1)) == spec_bcd(data.subrange(0, i)) + ({
            let low = data[i] & 0x0f;
            let high = (data[i] >> 4) & 0x0f;
            (if low <= 9 {
                seq![crate::addr::dec_digit(low as nat)]
            } else {
                seq![]
            }) + (if high <= 9 {
                seq![crate::addr::dec_digit(high as nat)]
            } else {
                seq![]
            })
        }),
    decreases i,
{
    let pre = data.subrange(0, i);
    let post = data.subrange(0, i + 1);
    if i == 0 {
        assert(pre =~= Seq::<u8>::empty());
        assert(post =~= seq![data[0]]);
        assert(post.drop_first() =~= Seq::<u8>::empty());
    } else {
        lemma_bcd_snoc(data.subrange(1, data.len() as int), i - 1);
        assert(pre.drop_first() =~= data.subrange(1, data.len() as int).subrange(0, i - 1));
        assert(post.drop_first() =~= data.subrange(1, data.len() as int).subrange(0, i));
        assert(pre.len() > 0 && post.len() > 0 && pre[0] == data[0] && post[0] == data[0]);
    }
}

/// Decodes packed mobile country and network codes from three bytes.
pub fn decode_mcc_mnc(d1: u8, d2: u8, d3: u8) -> (r: (String, String))
    ensures
        r.0@ == spec_mcc(d1, d2),
        r.1@ == spec_mnc(d2, d3),
{
    let mut mcc = u32_dec_string((d1 & 0x0f) as u32);
    mcc.append(u32_dec_string((d1 >> 4) as u32).as_str());
    mcc.append(u32_dec_string((d2 & 0x0f) as u32).as_str());
    let mnc1 = d2 >> 4;
    let mnc2 = d3 & 0x0f;
    let mnc3 = d3 >> 4;
    let mut mnc = u32_dec_string(mnc1 as u32);
    mnc.append(u32_dec_string(mnc2 as u32).as_str());
    if mnc3 != 0xf {
        mnc.append(u32_dec_string(mnc3 as u32).as_str());
    }
    (mcc, mnc)
}

/// Decodes a serving-network value.  Fails exactly when fewer than three
/// bytes are given.
pub fn decode_serving_network(input: &[u8]) -> (r: Result<GtpIeValue, String>)
    ensures
        r is Ok <==> input@.len() >= 3,
        r matches Ok(v) ==> v matches GtpIeValue::ServingNetwork(sn) && sn.mcc@ == spec_mcc(
            input@[0],
            input@[1],
        ) && sn.mnc@ == spec_mnc(input@[1], input@[2]),
{
    if input.len() < 3 {
        return Err(String::from_str("ServingNetwork IE: length must be 3"));
    }
    let (mcc, mnc) = decode_mcc_mnc(input[0], input[1], input[2]);
    Ok(GtpIeValue::ServingNetwork(ServingNetworkValue { mcc, mnc }))
}

/// Decodes an aggregate-bit-rate pair.  Fails exactly when fewer than
/// eight bytes are given.
pub fn decode_ambr(input: &[u8]) -> (r: Result<GtpIeValue, String>)
    ensures
        r is Ok <==> input@.len() >= 8,
        r matches Ok(v) ==> v matches GtpIeValue::Ambr(a) && a.ul == be32(
            input@[0],
            input@[1],
            input@[2],
            input@[3],
        ) && a.dl == be32(input@[4], input@[5], input@[6], input@[7]),
{
    if input.len() < 8 {
        return Err(String::from_str("AMBR IE too short"));
    }
    let ul = read_be32(input[0], input[1], input[2], input[3]);
    let dl = read_be32(input[4], input[5], input[6], input[7]);
    Ok(GtpIeValue::Ambr(AmbrValue { ul, dl }))
}

/// Decodes a bearer id: the low nibble of the first byte.  Fails exactly
/// on empty input.
pub fn decode_ebi(input: &[u8]) -> (r: Result<GtpIeValue, String>)
    ensures
        r is Ok <==> input@.len() > 0,
        r matches Ok(v) ==> v == GtpIeValue::Uint8((input@[0] & 0x0f) as u8),
{
    if input.len() == 0 {
        return Err(String::from_str("input is empty"));
    }
    Ok(GtpIeValue::Uint8(input[0] & 0x0f))
}

/// Relies on core::str::from_utf8: it succeeds exactly on valid UTF-8 and
/// returns the string whose byte encoding is the input.
#[verifier::external_body]
fn utf8_to_string(bytes: &[u8]) -> (r: Option<String>)
    ensures
        r is Some <==> vstd::utf8::valid_utf8(bytes@),
        r matches Some(s) ==> vstd::utf8::encode_utf8(s@) == bytes@,
{
    match core::str::from_utf8(bytes) {
        Ok(s) => Some(s.to_owned()),
        Err(_) => None,
    }
}

/// Decodes an access point name: the value bytes read as UTF-8.  Fails
/// exactly on empty or non-UTF-8 input.
pub fn decode_apn(input: &[u8]) -> (r: Result<GtpIeValue, String>)
    ensures
        r is Ok <==> input@.len() > 0 && vstd::utf8::valid_utf8(input@),
        r matches Ok(v) ==> v matches GtpIeValue::Apn(s) && vstd::utf8::encode_utf8(s@) == input@,
{
    if input.len() == 0 {
        return Err(String::from_str("Invalid APN format: zero-length buffer"));
    }
    match utf8_to_string(input) {
        Some(s) => Ok(GtpIeValue::Apn(s)),
        None => Err(String::from_str("APN contains invalid UTF-8")),
    }
}

/// Decodes an IPv4 address value into dotted-quad text.  Fails exactly
/// when fewer than four bytes are given.
pub fn decode_ipv4(input: &[u8]) -> (r: Result<GtpIeValue, String>)
    ensures
        r is Ok <==> input@.len() >= 4,
        r matches Ok(v) ==> v matches GtpIeValue::Ipv4(s) && s@ == spec_ipv4_text(
            be32(input@[0], input@[1], input@[2], input@[3]),
        ),
{
    if input.len() < 4 {
        return Err(String::from_str("IPv4 IE too short"));
    }
    Ok(GtpIeValue::Ipv4(ipv4_text(read_be32(input[0], input[1], input[2], input[3]))))
}

/// Decodes a bearer quality-of-service bundle.  Fails exactly when fewer
/// than eighteen bytes are given.
pub fn decode_bearerqos(input: &[u8]) -> (r: Result<GtpIeValue, String>)
    ensures
        r is Ok <==> input@.len() >= 18,
        r matches Ok(v) ==> v matches GtpIeValue::BearerQoS(q) && q == (BearerQoSValue {
            pci: input@[0] & 0x40 != 0,
            pl: ((input@[0] & 0x3c) >> 2) as u8,
            pvi: input@[0] & 0x01 != 0,
            qci: input@[1],
            mbr_ul: be32(input@[2], input@[3], input@[4], input@[5]),
            mbr_dl: be32(input@[6], input@[7], input@[8], input@[9]),
            gbr_ul: be32(input@[10], input@[11], input@[12], input@[13]),
            gbr_dl: be32(input@[14], input@[15], input@[16], input@[17]),
        }),
{
    if input.len() < 18 {
        return Err(String::from_str("Bearer QoS IE too short"));
    }
    Ok(
        GtpIeValue::BearerQoS(
            BearerQoSValue {
                pci: input[0] & 0x40 != 0,
                pl: (input[0] & 0x3c) >> 2,
                pvi: input[0] & 0x01 != 0,
                qci: input[1],
                mbr_ul: read_be32(input[2], input[3], input[4], input[5]),
                mbr_dl: read_be32(input[6], input[7], input[8], input[9]),
                gbr_ul: read_be32(input[10], input[11], input[12], input[13]),
                gbr_dl: read_be32(input[14], input[15], input[16], input[17]),
            },
        ),
    )
}

/// Whether a tunnel-endpoint descriptor of the given bytes is complete:
/// one flag byte, four tunnel-id bytes, then four address bytes if the
/// IPv4 flag is set and sixteen more if the IPv6 flag is set.
pub open spec fn spec_fteid_ok(data: Seq<u8>) -> bool {
    let v4 = data.len() >= 1 && data[0] & 0x80 != 0;
    let v6 = data.len() >= 1 && data[0] & 0x40 != 0;
    data.len() >= 5 && data.len() >= 5 + (if v4 {
        4int
    } else {
        0int
    }) + (if v6 {
        16int
    } else {
        0int
    })
}

/// Field-wise description of a decoded tunnel-endpoint descriptor.
pub open spec fn spec_fteid_matches(f: FTeidValue, data: Seq<u8>) -> bool
    recommends
        spec_fteid_ok(data),
{
    let v4 = data[0] & 0x80 != 0;
    let v6 = data[0] & 0x40 != 0;
    let v6_at = if v4 {
        9int
    } else {
        5int
    };
    f.v4 == v4 && f.v6 == v6 && f.iface_type == data[0] & 0x3f && f.teid == be32(
        data[1],
        data[2],
        data[3],
        data[4],
    ) && (if v4 {
        f.ipv4 matches Some(a) && a@ == spec_ipv4_text(be32(data[5], data[6], data[7], data[8]))
    } else {
        f.ipv4 is None
    }) && (if v6 {
        f.ipv6 matches Some(a) && a@ == spec_ipv6_text(data.subrange(v6_at, v6_at + 16))
    } else {
        f.ipv6 is None
    })
}

/// Decodes a tunnel-endpoint descriptor.  Fails exactly when the input is
/// shorter than the fields its flag byte declares.
pub fn decode_fteid(input: &[u8]) -> (r: Result<GtpIeValue, String>)
    ensures
        r is Ok <==> spec_fteid_ok(input@),
        r matches Ok(v) ==> v matches GtpIeValue::FTeid(f) && spec_fteid_matches(f, input@),
{
    if input.len() == 0 {
        return Err(String::from_str("input is empty"));
    }
    let v4 = input[0] & 0x80 != 0;
    let v6 = input[0] & 0x40 != 0;
    let iface_type = input[0] & 0x3f;
    if input.len() < 5 {
        return Err(String::from_str("F-TEID IE too short for TEID"));
    }
    let teid = read_be32(input[1], input[2], input[3], input[4]);
    let mut pos: usize = 5;
    let ipv4: Option<String> = if v4 {
        if input.len() < 9 {
            return Err(String::from_str("F-TEID IE too short for IPv4"));
        }
        pos = 9;
        Some(ipv4_text(read_be32(input[5], input[6], input[7], input[8])))
    } else {
        None
    };
    let ipv6: Option<String> = if v6 {
        if input.len() < pos + 16 {
            return Err(String::from_str("F-TEID IE too short for IPv6"));
        }
        Some(ipv6_text(&input[pos..pos + 16]))
    } else {
        None
    };
    Ok(GtpIeValue::FTeid(FTeidValue { v4, v6, iface_type, teid, ipv4, ipv6 }))
}


/// Offset of the service-area field in a user-location value.
pub open spec fn spec_uli_off_sai(f: u8) -> int {
    1 + (if f & 0x01 != 0 {
        7int
    } else {
        0int
    })
}

/// Offset of the routing-area field in a user-location value.
pub open spec fn spec_uli_off_rai(f: u8) -> int {
    spec_uli_off_sai(f) + (if f & 0x02 != 0 {
        7int
    } else {
        0int
    })
}

/// Offset of the tracking-area field in a user-location value.
pub open spec fn spec_uli_off_tai(f: u8) -> int {
    spec_uli_off_rai(f) + (if f & 0x04 != 0 {
        6int
    } else {
        0int
    })
}

/// Offset of the cell-global-identifier field in a user-location value.
pub open spec fn spec_uli_off_ecgi(f: u8) -> int {
    spec_uli_off_tai(f) + (if f & 0x08 != 0 {
        5int
    } else {
        0int
    })
}

/// Offset of the location-area field in a user-location value.
pub open spec fn spec_uli_off_lai(f: u8) -> int {
    spec_uli_off_ecgi(f) + (if f & 0x10 != 0 {
        7int
    } else {
        0int
    })
}

/// Total length a user-location value needs for the fields its flag byte
/// declares.
pub open spec fn spec_uli_end(f: u8) -> int {
    spec_uli_off_lai(f) + (if f & 0x20 != 0 {
        5int
    } else {
        0int
    })
}

/// Whether a user-location value holds every field its flag byte declares.
pub open spec fn spec_uli_ok(data: Seq<u8>) -> bool {
    data.len() >= 1 && data.len() >= spec_uli_end(data[0])
}

/// Field-wise description of a decoded user-location value.
pub open spec fn spec_uli_matches(u: UliValue, data: Seq<u8>) -> bool
    recommends
        spec_uli_ok(data),
{
    let f = data[0];
    let cgi_at = 1int;
    let sai_at = spec_uli_off_sai(f);
    let rai_at = spec_uli_off_rai(f);
    let tai_at = spec_uli_off_tai(f);
    let ecgi_at = spec_uli_off_ecgi(f);
    let lai_at = spec_uli_off_lai(f);
    u.has_cgi == (f & 0x01 != 0) && u.has_sai == (f & 0x02 != 0) && u.has_rai == (f & 0x04 != 0)
        && u.has_tai == (f & 0x08 != 0) && u.has_ecgi == (f & 0x10 != 0) && u.has_lai == (f & 0x20
        != 0) && (if f & 0x01 != 0 {
        u.cgi matches Some(c) && c.mcc@ == spec_mcc(data[cgi_at], data[cgi_at + 1]) && c.mnc@
            == spec_mnc(data[cgi_at + 1], data[cgi_at + 2]) && c.lac == be16(
            data[cgi_at + 3],
            data[cgi_at + 4],
        ) && c.ci == be16(data[cgi_at + 5], data[cgi_at + 6])
    } else {
        u.cgi is None
    }) && (if f & 0x02 != 0 {
        u.sai matches Some(c) && c.mcc@ == spec_mcc(data[sai_at], data[sai_at + 1]) && c.mnc@
            == spec_mnc(data[sai_at + 1], data[sai_at + 2]) && c.lac == be16(
            data[sai_at + 3],
            data[sai_at + 4],
        ) && c.sac == be16(data[sai_at + 5], data[sai_at + 6])
    } else {
        u.sai is None
    }) && (if f & 0x04 != 0 {
        u.rai matches Some(c) && c.mcc@ == spec_mcc(data[rai_at], data[rai_at + 1]) && c.mnc@
            == spec_mnc(data[rai_at + 1], data[rai_at + 2]) && c.lac == be16(
            data[rai_at + 3],
            data[rai_at + 4],
        ) && c.rac == data[rai_at + 5]
    } else {
        u.rai is None
    }) && (if f & 0x08 != 0 {
        u.tai matches Some(c) && c.mcc@ == spec_mcc(data[tai_at], data[tai_at + 1]) && c.mnc@
            == spec_mnc(data[tai_at + 1], data[tai_at + 2]) && c.tac == be16(
            data[tai_at + 3],
            data[tai_at + 4],
        )
    } else {
        u.tai is None
    }) && (if f & 0x10 != 0 {
        u.ecgi matches Some(c) && c.mcc@ == spec_mcc(data[ecgi_at], data[ecgi_at + 1]) && c.mnc@
            == spec_mnc(data[ecgi_at + 1], data[ecgi_at + 2]) && c.eci == be32(
            data[ecgi_at + 3],
            data[ecgi_at + 4],
            data[ecgi_at + 5],
            data[ecgi_at + 6],
        )
    } else {
        u.ecgi is None
    }) && (if f & 0x20 != 0 {
        u.lai matches Some(c) && c.mcc@ == spec_mcc(data[lai_at], data[lai_at + 1]) && c.mnc@
            == spec_mnc(data[lai_at + 1], data[lai_at + 2]) && c.lac == be16(
            data[lai_at + 3],
            data[lai_at + 4],
        )
    } else {
        u.lai is None
    })
}

/// Decodes a user-location value: a flag byte followed by the location
/// sub-structures the flags declare, in a fixed order.  Fails exactly when
/// the input is shorter than the declared fields need.
#[verifier::rlimit(100)]
#[verifier::spinoff_prover]
pub fn parse_uli_ie(data: &[u8]) -> (r: Result<GtpIeValue, String>)
    ensures
        r is Ok <==> spec_uli_ok(data@),
        r matches Ok(v) ==> v matches GtpIeValue::UserLocationInfo(u) && spec_uli_matches(
            u,
            data@,
        ),
{
    if data.len() < 1 {
        return Err(String::from_str("ULI IE too short"));
    }
    let flags = data[0];
    let mut offset: usize = 1;
    let mut uli = UliValue {
        has_cgi: flags & 0x01 != 0,
        has_sai: flags & 0x02 != 0,
        has_rai: flags & 0x04 != 0,
        has_tai: flags & 0x08 != 0,
        has_ecgi: flags & 0x10 != 0,
        has_lai: flags & 0x20 != 0,
        cgi: None,
        sai: None,
        rai: None,
        tai: None,
        ecgi: None,
        lai: None,
    };
    if uli.has_cgi {
        if data.len() < offset + 7 {
            return Err(String::from_str("CGI field incomplete"));
        }
        let (mcc, mnc) = decode_mcc_mnc(data[offset], data[offset + 1], data[offset + 2]);
        let lac = read_be16(data[offset + 3], data[offset + 4]);
        let ci = read_be16(data[offset + 5], data[offset + 6]);
        uli.cgi = Some(CgiValue { mcc, mnc, lac, ci });
        offset += 7;
    }
    if uli.has_sai {
        if data.len() < offset + 7 {
            return Err(String::from_str("SAI field incomplete"));
        }
        let (mcc, mnc) = decode_mcc_mnc(data[offset], data[offset + 1], data[offset + 2]);
        let lac = read_be16(data[offset + 3], data[offset + 4]);
        let sac = read_be16(data[offset + 5], data[offset + 6]);
        uli.sai = Some(SaiValue { mcc, mnc, lac, sac });
        offset += 7;
    }
    if uli.has_rai {
        if data.len() < offset + 6 {
            return Err(String::from_str("RAI field incomplete"));
        }
        let (mcc, mnc) = decode_mcc_mnc(data[offset], data[offset + 1], data[offset + 2]);
        let lac = read_be16(data[offset + 3], data[offset + 4]);
        let rac = data[offset + 5];
        uli.rai = Some(RaiValue { mcc, mnc, lac, rac });
        offset += 6;
    }
    if uli.has_tai {
        if data.len() < offset + 5 {
            return Err(String::from_str("TAI field incomplete"));
        }
        let (mcc, mnc) = decode_mcc_mnc(data[offset], data[offset + 1], data[offset + 2]);
        let tac = read_be16(data[offset + 3], data[offset + 4]);
        uli.tai = Some(TaiValue { mcc, mnc, tac });
        offset += 5;
    }
    if uli.has_ecgi {
        if data.len() < offset + 7 {
            return Err(String::from_str("ECGI field incomplete"));
        }
        let (mcc, mnc) = decode_mcc_mnc(data[offset], data[offset + 1], data[offset + 2]);
        let eci = read_be32(
            data[offset + 3],
            data[offset + 4],
            data[offset + 5],
            data[offset + 6],
        );
        uli.ecgi = Some(EcgiValue { mcc, mnc, eci });
        offset += 7;
    }
    if uli.has_lai {
        if data.len() < offset + 5 {
            return Err(String::from_str("LAI field incomplete"));
        }
        let (mcc, mnc) = decode_mcc_mnc(data[offset], data[offset + 1], data[offset + 2]);
        let lac = read_be16(data[offset + 3], data[offset + 4]);
        uli.lai = Some(LaiValue { mcc, mnc, lac });
        offset += 5;
    }
    Ok(GtpIeValue::UserLocationInfo(uli))
}


/// Name of a traffic-filter-template operation code (three bits).
pub open spec fn spec_tft_op_name(op: u8) -> Seq<char> {
    if op == 0 {
        "Spare"@
    } else if op == 1 {
        "Create New TFT"@
    } else if op == 2 {
        "Deleting existing TFT"@
    } else if op == 3 {
        "Add packet filters to existing TFT"@
    } else if op == 4 {
        "Replace packet filter in existing TFT"@
    } else if op == 5 {
        "Delete packet filter in existing TFT"@
    } else if op == 6 {
        "No TFT operation"@
    } else {
        "Reserved"@
    }
}

/// Human-readable name of a traffic-filter-template operation code.
pub fn tft_op_name(op: u8) -> (s: String)
    ensures
        s@ == spec_tft_op_name(op),
{
    if op == 0 {
        String::from_str("Spare")
    } else if op == 1 {
        String::from_str("Create New TFT")
    } else if op == 2 {
        String::from_str("Deleting existing TFT")
    } else if op == 3 {
        String::from_str("Add packet filters to existing TFT")
    } else if op == 4 {
        String::from_str("Replace packet filter in existing TFT")
    } else if op == 5 {
        String::from_str("Delete packet filter in existing TFT")
    } else if op == 6 {
        String::from_str("No TFT operation")
    } else {
        String::from_str("Reserved")
    }
}

/// Fixed size of a filter component's value, by component type; zero for
/// an unrecognized type.
pub open spec fn spec_comp_real_len(t: u8) -> int {
    if t == 0x10 {
        8
    } else if t == 0x20 {
        32
    } else if t == 0x30 {
        1
    } else if t == 0x40 {
        2
    } else if t == 0x41 {
        4
    } else if t == 0x50 {
        2
    } else if t == 0x51 {
        4
    } else if t == 0x60 {
        4
    } else if t == 0x70 {
        2
    } else if t == 0x80 {
        3
    } else {
        0
    }
}

/// Fixed size of a filter component's value, by component type.
pub fn comp_real_len(t: u8) -> (n: usize)
    ensures
        n == spec_comp_real_len(t),
{
    if t == 0x10 {
        8
    } else if t == 0x20 {
        32
    } else if t == 0x30 {
        1
    } else if t == 0x40 {
        2
    } else if t == 0x41 {
        4
    } else if t == 0x50 {
        2
    } else if t == 0x51 {
        4
    } else if t == 0x60 {
        4
    } else if t == 0x70 {
        2
    } else if t == 0x80 {
        3
    } else {
        0
    }
}

/// Field-wise description of one decoded filter component of a known type,
/// over its fixed-size value bytes.
pub open spec fn spec_comp_value_matches(c: PacketFilterComponent, t: u8, v: Seq<u8>) -> bool
    recommends
        v.len() == spec_comp_real_len(t),
{
    if t == 0x10 {
        c matches PacketFilterComponent::Ipv4Addr { addr, mask } && addr@ == spec_ipv4_text(
            be32(v[0], v[1], v[2], v[3]),
        ) && mask@ == spec_ipv4_text(be32(v[4], v[5], v[6], v[7]))
    } else if t == 0x20 {
        c matches PacketFilterComponent::Ipv6Addr { addr, mask } && addr@ == spec_ipv6_text(
            v.subrange(0, 16),
        ) && mask@ == spec_ipv6_text(v.subrange(16, 32))
    } else if t == 0x30 {
        c == (PacketFilterComponent::Protocol { proto: v[0] })
    } else if t == 0x40 || t == 0x50 {
        c == (PacketFilterComponent::SinglePort { port: be16(v[0], v[1]) })
    } else if t == 0x41 || t == 0x51 {
        c == (PacketFilterComponent::PortRange { start: be16(v[0], v[1]), end: be16(v[2], v[3]) })
    } else if t == 0x60 {
        c == (PacketFilterComponent::SecParamIdx { spi: be32(v[0], v[1], v[2], v[3]) })
    } else if t == 0x70 {
        c == (PacketFilterComponent::TypeOfService { value: v[0], mask: v[1] })
    } else if t == 0x80 {
        c == (PacketFilterComponent::FlowLabel { label: crate::types::be24(v[0], v[1], v[2]) })
    } else {
        false
    }
}

/// Exact description of a decoded component list against the filter
/// content bytes from a given offset: components of known types are
/// decoded at their fixed sizes in order, and an unrecognized or truncated
/// component ends the list as a typed placeholder holding the rest.
pub open spec fn spec_comps_match(
    cs: Seq<PacketFilterComponentList>,
    content: Seq<u8>,
    off: int,
) -> bool
    decreases content.len() - off,
{
    if off >= content.len() {
        cs.len() == 0
    } else if off + 2 > content.len() {
        cs.len() == 1 && cs[0].pf_type_id == 0xff && (cs[0].components
            matches PacketFilterComponent::Unknown { t, data } && t == 0xff && data@
            == content.subrange(off, content.len() as int))
    } else {
        let t = content[off];
        let rl = spec_comp_real_len(t);
        if rl == 0 || off + 1 + rl > content.len() {
            cs.len() == 1 && cs[0].pf_type_id == t && (cs[0].components
                matches PacketFilterComponent::Unknown { t: t2, data } && t2 == t && data@
                == content.subrange(off + 1, content.len() as int))
        } else {
            cs.len() >= 1 && cs[0].pf_type_id == t && spec_comp_value_matches(
                cs[0].components,
                t,
                content.subrange(off + 1, off + 1 + rl),
            ) && spec_comps_match(cs.drop_first(), content, off + 1 + rl)
        }
    }
}

/// Header fields and content bytes of one packet filter.
pub struct PfFrame {
    pub dir: u8,
    pub id: u8,
    pub prec: u8,
    pub len: u8,
    pub content: Seq<u8>,
}

/// The packet-filter frames of a traffic-filter template, or nothing if a
/// filter header or its content is truncated.
pub open spec fn spec_tft_filters(data: Seq<u8>, off: int, n: int) -> Option<Seq<PfFrame>>
    decreases n,
{
    if n <= 0 {
        Some(seq![])
    } else if off + 4 >= data.len() {
        None
    } else {
        let plen = data[off + 2] as int;
        if off + 3 + plen > data.len() {
            None
        } else {
            let f = PfFrame {
                dir: ((data[off] & 0x30) >> 4) as u8,
                id: (data[off] & 0x0f) as u8,
                prec: data[off + 1],
                len: data[off + 2],
                content: data.subrange(off + 3, off + 3 + plen),
            };
            match spec_tft_filters(data, off + 3 + plen, n - 1) {
                Some(fs) => Some(seq![f] + fs),
                None => None,
            }
        }
    }
}

/// Field-wise description of one decoded packet filter.
pub open spec fn spec_pf_matches(p: PacketFilter, f: PfFrame) -> bool {
    p.pf_dir == f.dir && p.pf_id == f.id && p.pkt_prec == f.prec && p.pf_len == f.len
        && spec_comps_match(p.packet_filter_component_list@, f.content, 0)
}

/// Whether a traffic-filter template decodes completely: at least three
/// bytes, and every declared packet filter present in full.
pub open spec fn spec_tft_ok(data: Seq<u8>) -> bool {
    data.len() >= 3 && spec_tft_filters(data, 1, (data[0] & 0x0f) as int) is Some
}

/// Field-wise description of a decoded traffic-filter template.
pub open spec fn spec_tft_matches(b: BearerTFT, data: Seq<u8>) -> bool
    recommends
        spec_tft_ok(data),
{
    let op = ((data[0] & 0xe0) >> 5) as u8;
    let frames = spec_tft_filters(data, 1, (data[0] & 0x0f) as int).unwrap();
    b.tft_op_code == op && b.str_tft_op_code@ == spec_tft_op_name(op) && b.e_bit == (data[0] & 0x10
        != 0) && b.num_filter == data[0] & 0x0f && b.packet_filter_list@.len() == frames.len()
        && forall|k: int|
        0 <= k < frames.len() ==> spec_pf_matches(#[trigger] b.packet_filter_list@[k], frames[k])
}

fn parse_ipv4_remote(data: &[u8]) -> (r: Result<PacketFilterComponent, String>)
    ensures
        r is Ok <==> data@.len() >= 8,
        r matches Ok(c) ==> c matches PacketFilterComponent::Ipv4Addr { addr, mask } && addr@
            == spec_ipv4_text(be32(data@[0], data@[1], data@[2], data@[3])) && mask@
            == spec_ipv4_text(be32(data@[4], data@[5], data@[6], data@[7])),
{
    if data.len() < 8 {
        return Err(String::from_str("IPv4 component length must be 8"));
    }
    let addr = ipv4_text(read_be32(data[0], data[1], data[2], data[3]));
    let mask = ipv4_text(read_be32(data[4], data[5], data[6], data[7]));
    Ok(PacketFilterComponent::Ipv4Addr { addr, mask })
}

fn parse_ipv6_remote(data: &[u8]) -> (r: Result<PacketFilterComponent, String>)
    ensures
        r is Ok <==> data@.len() >= 32,
        r matches Ok(c) ==> c matches PacketFilterComponent::Ipv6Addr { addr, mask } && addr@
            == spec_ipv6_text(data@.subrange(0, 16)) && mask@ == spec_ipv6_text(
            data@.subrange(16, 32),
        ),
{
    if data.len() < 32 {
        return Err(String::from_str("IPv6 component length must be 32"));
    }
    let addr = ipv6_text(&data[0..16]);
    let mask = ipv6_text(&data[16..32]);
    Ok(PacketFilterComponent::Ipv6Addr { addr, mask })
}

fn parse_protocol(data: &[u8]) -> (r: Result<PacketFilterComponent, String>)
    ensures
        r is Ok <==> data@.len() >= 1,
        r matches Ok(c) ==> c == (PacketFilterComponent::Protocol { proto: data@[0] }),
{
    if data.len() < 1 {
        return Err(String::from_str("Protocol component length must be 1"));
    }
    Ok(PacketFilterComponent::Protocol { proto: data[0] })
}

fn parse_single_local_port(data: &[u8]) -> (r: Result<PacketFilterComponent, String>)
    ensures
        r is Ok <==> data@.len() >= 2,
        r matches Ok(c) ==> c == (PacketFilterComponent::SinglePort {
            port: be16(data@[0], data@[1]),
        }),
{
    if data.len() < 2 {
        return Err(String::from_str("Single port component length must be 2"));
    }
    Ok(PacketFilterComponent::SinglePort { port: read_be16(data[0], data[1]) })
}

fn parse_local_port_range(data: &[u8]) -> (r: Result<PacketFilterComponent, String>)
    ensures
        r is Ok <==> data@.len() >= 4,
        r matches Ok(c) ==> c == (PacketFilterComponent::PortRange {
            start: be16(data@[0], data@[1]),
            end: be16(data@[2], data@[3]),
        }),
{
    if data.len() < 4 {
        return Err(String::from_str("Port range component length must be 4"));
    }
    Ok(
        PacketFilterComponent::PortRange {
            start: read_be16(data[0], data[1]),
            end: read_be16(data[2], data[3]),
        },
    )
}

fn parse_single_remote_port(data: &[u8]) -> (r: Result<PacketFilterComponent, String>)
    ensures
        r is Ok <==> data@.len() >= 2,
        r matches Ok(c) ==> c == (PacketFilterComponent::SinglePort {
            port: be16(data@[0], data@[1]),
        }),
{
    if data.len() < 2 {
        return Err(String::from_str("Single port component length must be 2"));
    }
    Ok(PacketFilterComponent::SinglePort { port: read_be16(data[0], data[1]) })
}

fn parse_remote_port_range(data: &[u8]) -> (r: Result<PacketFilterComponent, String>)
    ensures
        r is Ok <==> data@.len() >= 4,
        r matches Ok(c) ==> c == (PacketFilterComponent::PortRange {
            start: be16(data@[0], data@[1]),
            end: be16(data@[2], data@[3]),
        }),
{
    if data.len() < 4 {
        return Err(String::from_str("Port range component length must be 4"));
    }
    Ok(
        PacketFilterComponent::PortRange {
            start: read_be16(data[0], data[1]),
            end: read_be16(data[2], data[3]),
        },
    )
}

fn parse_spi(comp_value: &[u8]) -> (r: Result<PacketFilterComponent, String>)
    ensures
        r is Ok <==> comp_value@.len() >= 4,
        r matches Ok(c) ==> c == (PacketFilterComponent::SecParamIdx {
            spi: be32(comp_value@[0], comp_value@[1], comp_value@[2], comp_value@[3]),
        }),
{
    if comp_value.len() < 4 {
        return Err(String::from_str("SPI must be 4 bytes"));
    }
    Ok(
        PacketFilterComponent::SecParamIdx {
            spi: read_be32(comp_value[0], comp_value[1], comp_value[2], comp_value[3]),
        },
    )
}

fn parse_tos(comp_value: &[u8]) -> (r: Result<PacketFilterComponent, String>)
    ensures
        r is Ok <==> comp_value@.len() >= 2,
        r matches Ok(c) ==> c == (PacketFilterComponent::TypeOfService {
            value: comp_value@[0],
            mask: comp_value@[1],
        }),
{
    if comp_value.len() < 2 {
        return Err(String::from_str("TOS/Traffic class must be 2 bytes"));
    }
    Ok(PacketFilterComponent::TypeOfService { value: comp_value[0], mask: comp_value[1] })
}

fn parse_flow_label(comp_value: &[u8]) -> (r: Result<PacketFilterComponent, String>)
    ensures
        r is Ok <==> comp_value@.len() >= 3,
        r matches Ok(c) ==> c == (PacketFilterComponent::FlowLabel {
            label: crate::types::be24(comp_value@[0], comp_value@[1], comp_value@[2]),
        }),
{
    if comp_value.len() < 3 {
        return Err(String::from_str("Flow label must be 3 bytes"));
    }
    Ok(
        PacketFilterComponent::FlowLabel {
            label: crate::types::read_be24(comp_value[0], comp_value[1], comp_value[2]),
        },
    )
}

/// Decodes the typed components of one packet filter's content bytes,
/// starting at the given offset.
fn parse_components(content: &[u8], off: usize) -> (cs: Vec<PacketFilterComponentList>)
    requires
        off <= content@.len(),
    ensures
        spec_comps_match(cs@, content@, off as int),
    decreases content@.len() - off,
{
    let mut cs: Vec<PacketFilterComponentList> = Vec::new();
    if off >= content.len() {
        return cs;
    }
    if content.len() - off < 2 {
        let data = vstd::slice::slice_to_vec(&content[off..content.len()]);
        cs.push(
            PacketFilterComponentList {
                pf_type_id: 0xff,
                components: PacketFilterComponent::Unknown { t: 0xff, data },
            },
        );
        return cs;
    }
    let t = content[off];
    let rl = comp_real_len(t);
    if rl == 0 || rl > content.len() - (off + 1) {
        let data = vstd::slice::slice_to_vec(&content[off + 1..content.len()]);
        cs.push(
            PacketFilterComponentList {
                pf_type_id: t,
                components: PacketFilterComponent::Unknown { t, data },
            },
        );
        return cs;
    }
    let comp_value = &content[off + 1..off + 1 + rl];
    let parsed = if t == 0x10 {
        parse_ipv4_remote(comp_value)
    } else if t == 0x20 {
        parse_ipv6_remote(comp_value)
    } else if t == 0x30 {
        parse_protocol(comp_value)
    } else if t == 0x40 {
        parse_single_local_port(comp_value)
    } else if t == 0x41 {
        parse_local_port_range(comp_value)
    } else if t == 0x50 {
        parse_single_remote_port(comp_value)
    } else if t == 0x51 {
        parse_remote_port_range(comp_value)
    } else if t == 0x60 {
        parse_spi(comp_value)
    } else if t == 0x70 {
        parse_tos(comp_value)
    } else {
        parse_flow_label(comp_value)
    };
    let comp = match parsed {
        Ok(c) => c,
        Err(_) => {
            proof {
                assert(false);
            }
            PacketFilterComponent::Nothing
        },
    };
    let mut rest = parse_components(content, off + 1 + rl);
    let ghost tail = rest@;
    rest.insert(0, PacketFilterComponentList { pf_type_id: t, components: comp });
    proof {
        assert(rest@.drop_first() =~= tail);
    }
    rest
}

/// Decodes the declared number of packet filters, starting at the given
/// offset.  Fails exactly when a filter header or its content is
/// truncated.
fn parse_filters(input: &[u8], off: usize, n: u8) -> (r: Result<Vec<PacketFilter>, String>)
    requires
        off <= input@.len(),
    ensures
        r is Ok <==> spec_tft_filters(input@, off as int, n as int) is Some,
        r matches Ok(v) ==> {
            let frames = spec_tft_filters(input@, off as int, n as int).unwrap();
            v@.len() == frames.len() && forall|k: int|
                0 <= k < frames.len() ==> spec_pf_matches(#[trigger] v@[k], frames[k])
        },
    decreases n,
{
    if n == 0 {
        return Ok(Vec::new());
    }
    if input.len() - off <= 4 {
        return Err(String::from_str("BearerTFT: packet filter header truncated"));
    }
    let pf_dir = (input[off] & 0x30) >> 4;
    let pf_id = input[off] & 0x0f;
    let pkt_prec = input[off + 1];
    let pf_len = input[off + 2];
    if pf_len as usize > input.len() - (off + 3) {
        return Err(String::from_str("BearerTFT: packet filter content truncated"));
    }
    let content = &input[off + 3..off + 3 + pf_len as usize];
    let comps = parse_components(content, 0);
    let pf = PacketFilter {
        pf_dir,
        pf_id,
        pkt_prec,
        pf_len,
        packet_filter_component_list: comps,
    };
    match parse_filters(input, off + 3 + pf_len as usize, n - 1) {
        Ok(mut rest) => {
            let ghost tail = rest@;
            rest.insert(0, pf);
            proof {
                assert(rest@.drop_first() =~= tail);
                assert(rest@ =~= seq![pf] + tail);
            }
            Ok(rest)
        },
        Err(e) => Err(e),
    }
}

/// Decodes a traffic-filter template: operation code, extension bit and
/// filter count in the first byte, then that many packet filters.  Fails
/// exactly when the input is shorter than three bytes or a declared filter
/// is truncated.
pub fn decode_bearer_tft(input: &[u8]) -> (r: Result<GtpIeValue, String>)
    ensures
        r is Ok <==> spec_tft_ok(input@),
        r matches Ok(v) ==> v matches GtpIeValue::BearerTFT(b) && spec_tft_matches(b, input@),
{
    if input.len() < 3 {
        return Err(String::from_str("BearerTFT: length must be more than 3 bytes"));
    }
    let tft_op_code = (input[0] & 0xe0) >> 5;
    let e_bit = (input[0] & 0x10) != 0;
    let num_filter = input[0] & 0x0f;
    let filters = match parse_filters(input, 1, num_filter) {
        Ok(v) => v,
        Err(e) => {
            return Err(e);
        },
    };
    Ok(
        GtpIeValue::BearerTFT(
            BearerTFT {
                tft_op_code,
                str_tft_op_code: tft_op_name(tft_op_code),
                e_bit,
                num_filter,
                packet_filter_list: filters,
            },
        ),
    )
}


/// Nesting cap for grouped information elements.
pub const MAX_IE_DEPTH: u32 = 8;

/// Header fields, value bytes and raw bytes of one information element.
pub struct IeFrame {
    pub t: u8,
    pub len: u16,
    pub inst: u8,
    pub val: Seq<u8>,
    pub raw: Seq<u8>,
}

/// Whether the input starts with a complete information element: a
/// four-byte header and the value bytes its length field declares.
pub open spec fn spec_frame_fits(data: Seq<u8>) -> bool {
    data.len() >= 4 && 4 + be16(data[1], data[2]) as int <= data.len()
}

/// The first information element's frame.
pub open spec fn spec_frame_at(data: Seq<u8>) -> IeFrame
    recommends
        spec_frame_fits(data),
{
    let len = be16(data[1], data[2]);
    IeFrame {
        t: data[0],
        len,
        inst: (data[3] & 0x0f) as u8,
        val: data.subrange(4, 4 + len as int),
        raw: data.subrange(0, 4 + len as int),
    }
}

/// The element frames of a byte string.  Decoding stops, keeping what was
/// read, once fewer than four bytes remain.  On an element whose declared
/// value does not fit, a hard decode fails and a soft decode stops,
/// keeping what was read.
pub open spec fn spec_ie_frames(data: Seq<u8>, hard: bool) -> Option<Seq<IeFrame>>
    decreases data.len(),
{
    if data.len() < 4 {
        Some(seq![])
    } else if !spec_frame_fits(data) {
        if hard {
            None
        } else {
            Some(seq![])
        }
    } else {
        let f = spec_frame_at(data);
        let rest = data.subrange(4 + f.len as int, data.len() as int);
        if rest.len() < 4 {
            Some(seq![f])
        } else {
            match spec_ie_frames(rest, hard) {
                Some(fs) => Some(seq![f] + fs),
                None => None,
            }
        }
    }
}

/// Exact description of a decoded leaf value against its type code and
/// value bytes: the per-type decoder's result, the length-based fallback
/// for unknown types, and the typed placeholder where a decoder fails.
pub open spec fn spec_leaf_value_matches(v: GtpIeValue, t: u8, val: Seq<u8>) -> bool {
    if t == GTPV2C_IE_IMSI || t == GTPV2C_IE_MEI || t == GTPV2C_IE_MSISDN {
        if val.len() > 0 {
            v matches GtpIeValue::Utf8String(s) && s@ == spec_bcd(val)
        } else {
            v is Nothing
        }
    } else if t == GTPV2C_IE_APN {
        if val.len() > 0 && vstd::utf8::valid_utf8(val) {
            v matches GtpIeValue::Apn(s) && vstd::utf8::encode_utf8(s@) == val
        } else {
            v is Nothing
        }
    } else if t == GTPV2C_IE_AMBR {
        if val.len() >= 8 {
            v matches GtpIeValue::Ambr(a) && a.ul == be32(val[0], val[1], val[2], val[3]) && a.dl
                == be32(val[4], val[5], val[6], val[7])
        } else {
            v is Nothing
        }
    } else if t == GTPV2C_IE_EBI {
        if val.len() > 0 {
            v == GtpIeValue::Uint8((val[0] & 0x0f) as u8)
        } else {
            v is Nothing
        }
    } else if t == GTPV2C_IE_BEARER_QOS {
        if val.len() >= 18 {
            v matches GtpIeValue::BearerQoS(q) && q == (BearerQoSValue {
                pci: val[0] & 0x40 != 0,
                pl: ((val[0] & 0x3c) >> 2) as u8,
                pvi: val[0] & 0x01 != 0,
                qci: val[1],
                mbr_ul: be32(val[2], val[3], val[4], val[5]),
                mbr_dl: be32(val[6], val[7], val[8], val[9]),
                gbr_ul: be32(val[10], val[11], val[12], val[13]),
                gbr_dl: be32(val[14], val[15], val[16], val[17]),
            })
        } else {
            v is Nothing
        }
    } else if t == GTPV2C_IE_SERVING_NETWORK {
        if val.len() >= 3 {
            v matches GtpIeValue::ServingNetwork(sn) && sn.mcc@ == spec_mcc(val[0], val[1])
                && sn.mnc@ == spec_mnc(val[1], val[2])
        } else {
            v is Nothing
        }
    } else if t == GTPV2C_IE_BEARER_TFT {
        if spec_tft_ok(val) {
            v matches GtpIeValue::BearerTFT(b) && spec_tft_matches(b, val)
        } else {
            v is Nothing
        }
    } else if t == GTPV2C_IE_ULI {
        if spec_uli_ok(val) {
            v matches GtpIeValue::UserLocationInfo(u) && spec_uli_matches(u, val)
        } else {
            v is Nothing
        }
    } else if t == GTPV2C_IE_FTEID {
        if spec_fteid_ok(val) {
            v matches GtpIeValue::FTeid(f) && spec_fteid_matches(f, val)
        } else {
            v is Nothing
        }
    } else if t == GTPV2C_IE_IP_ADDRESS {
        if val.len() >= 4 {
            v matches GtpIeValue::Ipv4(s) && s@ == spec_ipv4_text(
                be32(val[0], val[1], val[2], val[3]),
            )
        } else {
            v is Nothing
        }
    } else if val.len() == 1 {
        v == GtpIeValue::Uint8(val[0])
    } else if val.len() == 2 {
        v == GtpIeValue::Uint16(be16(val[0], val[1]))
    } else if val.len() == 4 {
        v == GtpIeValue::Uint32(be32(val[0], val[1], val[2], val[3]))
    } else {
        v matches GtpIeValue::Raw(r) && r@ == val
    }
}

/// Exact description of one decoded element against its frame: header
/// fields, name, raw bytes, and a value decoded by type, with grouped
/// elements holding their nested list down to the given depth.
pub open spec fn spec_ie_matches(ie: GtpIe, f: IeFrame, depth: nat) -> bool
    decreases depth, 0int,
{
    ie.ie_type == f.t && ie.length == f.len && ie.instance == f.inst && ie.type_str@
        == spec_ie_type_name(f.t) && ie.raw@ == f.raw && (if spec_ie_is_grouped(f.t) {
        ie.ie_value matches GtpIeValue::SubIeList(l) && (if depth == 0 {
            l@.len() == 0
        } else {
            spec_ies_match(l@, f.val, (depth - 1) as nat)
        })
    } else {
        spec_leaf_value_matches(ie.ie_value, f.t, f.val)
    })
}

/// Exact description of a decoded element list against the byte string it
/// was soft-decoded from.
pub open spec fn spec_ies_match(ies: Seq<GtpIe>, data: Seq<u8>, depth: nat) -> bool
    decreases depth, 1int,
{
    match spec_ie_frames(data, false) {
        Some(fs) => ies.len() == fs.len() && forall|k: int|
            0 <= k < fs.len() ==> spec_ie_matches(#[trigger] ies[k], fs[k], depth),
        None => false,
    }
}

/// Exact description of a decoded element list against the byte string it
/// was hard-decoded from.
pub open spec fn spec_ies_match_hard(ies: Seq<GtpIe>, data: Seq<u8>) -> bool {
    match spec_ie_frames(data, true) {
        Some(fs) => ies.len() == fs.len() && forall|k: int|
            0 <= k < fs.len() ==> spec_ie_matches(#[trigger] ies[k], fs[k], MAX_IE_DEPTH as nat),
        None => false,
    }
}

/// Decodes the first information element of the input, nesting grouped
/// elements down to `depth`.  Fails exactly when the input is shorter
/// than a header or the declared value does not fit.
fn parse_ie_at(input: &[u8], depth: u32) -> (r: Result<(GtpIe, usize), String>)
    ensures
        r is Ok <==> spec_frame_fits(input@),
        r matches Ok((ie, n)) ==> spec_ie_matches(ie, spec_frame_at(input@), depth as nat) && n
            == 4 + spec_frame_at(input@).len as int && n <= input@.len(),
    decreases depth, input@.len(), 0int,
{
    if input.len() < 4 {
        return Err(String::from_str("IE header truncated"));
    }
    let ie_type = input[0];
    let ie_len = read_be16(input[1], input[2]) as usize;
    let ie_inst = input[3] & 0x0f;
    if ie_len > input.len() - 4 {
        return Err(String::from_str("IE value truncated"));
    }
    let total = 4 + ie_len;
    let raw = vstd::slice::slice_to_vec(&input[0..total]);
    let val = &input[4..total];
    let ie_value: GtpIeValue = if ie_is_grouped(ie_type) {
        if depth == 0 {
            GtpIeValue::SubIeList(Vec::new())
        } else {
            GtpIeValue::SubIeList(parse_sub_ies(val, depth - 1))
        }
    } else {
        let decoded: Result<GtpIeValue, String> = if ie_type == GTPV2C_IE_IMSI || ie_type
            == GTPV2C_IE_MEI || ie_type == GTPV2C_IE_MSISDN {
            decode_bcd(val)
        } else if ie_type == GTPV2C_IE_APN {
            decode_apn(val)
        } else if ie_type == GTPV2C_IE_AMBR {
            decode_ambr(val)
        } else if ie_type == GTPV2C_IE_EBI {
            decode_ebi(val)
        } else if ie_type == GTPV2C_IE_BEARER_QOS {
            decode_bearerqos(val)
        } else if ie_type == GTPV2C_IE_SERVING_NETWORK {
            decode_serving_network(val)
        } else if ie_type == GTPV2C_IE_BEARER_TFT {
            decode_bearer_tft(val)
        } else if ie_type == GTPV2C_IE_ULI {
            parse_uli_ie(val)
        } else if ie_type == GTPV2C_IE_FTEID {
            decode_fteid(val)
        } else if ie_type == GTPV2C_IE_IP_ADDRESS {
            decode_ipv4(val)
        } else if ie_len == 1 {
            Ok(GtpIeValue::Uint8(val[0]))
        } else if ie_len == 2 {
            Ok(GtpIeValue::Uint16(read_be16(val[0], val[1])))
        } else if ie_len == 4 {
            Ok(GtpIeValue::Uint32(read_be32(val[0], val[1], val[2], val[3])))
        } else {
            Ok(GtpIeValue::Raw(vstd::slice::slice_to_vec(val)))
        };
        match decoded {
            Ok(v) => v,
            Err(_) => GtpIeValue::Nothing,
        }
    };
    let ie = GtpIe {
        ie_type,
        type_str: ie_type_name(ie_type),
        length: ie_len as u16,
        instance: ie_inst,
        ie_value,
        raw,
    };
    Ok((ie, total))
}

/// Soft-decodes an element list: stops, keeping what was read, once fewer
/// than four bytes remain or an element's declared value does not fit.
fn parse_sub_ies(input: &[u8], depth: u32) -> (ies: Vec<GtpIe>)
    ensures
        spec_ies_match(ies@, input@, depth as nat),
    decreases depth, input@.len(), 1int,
{
    if input.len() < 4 {
        return Vec::new();
    }
    match parse_ie_at(input, depth) {
        Err(_) => Vec::new(),
        Ok((ie, n)) => {
            let rest = &input[n..input.len()];
            if rest.len() < 4 {
                let mut v = Vec::new();
                v.push(ie);
                v
            } else {
                let mut v = parse_sub_ies(rest, depth);
                let ghost tail = v@;
                v.insert(0, ie);
                proof {
                    assert(v@.drop_first() =~= tail);
                    assert(v@ =~= seq![ie] + tail);
                }
                v
            }
        },
    }
}

/// Decodes the flat element list of a message body.  Stops, keeping what
/// was read, once fewer than four bytes remain; fails exactly when an
/// element's declared value does not fit in the remaining bytes.
pub fn parse_all_ies(input: &[u8]) -> (r: Result<Vec<GtpIe>, String>)
    ensures
        r is Ok <==> spec_ie_frames(input@, true) is Some,
        r matches Ok(ies) ==> spec_ies_match_hard(ies@, input@),
    decreases input@.len(),
{
    if input.len() < 4 {
        return Ok(Vec::new());
    }
    match parse_ie_at(input, MAX_IE_DEPTH) {
        Err(e) => Err(e),
        Ok((ie, n)) => {
            let rest = &input[n..input.len()];
            if rest.len() < 4 {
                let mut v = Vec::new();
                v.push(ie);
                Ok(v)
            } else {
                match parse_all_ies(rest) {
                    Err(e) => Err(e),
                    Ok(mut v) => {
                        let ghost tail = v@;
                        v.insert(0, ie);
                        proof {
                            assert(v@.drop_first() =~= tail);
                            assert(v@ =~= seq![ie] + tail);
                        }
                        Ok(v)
                    },
                }
            }
        },
    }
}


/// Same decoded tunnel-endpoint content, compared field by field.
pub open spec fn spec_fteid_equiv(a: FTeidValue, b: FTeidValue) -> bool {
    a.v4 == b.v4 && a.v6 == b.v6 && a.iface_type == b.iface_type && a.teid == b.teid && (match (
        a.ipv4,
        b.ipv4,
    ) {
        (Some(x), Some(y)) => x@ == y@,
        (Option::<String>::None, Option::<String>::None) => true,
        _ => false,
    }) && (match (a.ipv6, b.ipv6) {
        (Some(x), Some(y)) => x@ == y@,
        (Option::<String>::None, Option::<String>::None) => true,
        _ => false,
    })
}

/// Same decoded traffic-filter component, compared field by field.
pub open spec fn spec_pfc_equiv(a: PacketFilterComponent, b: PacketFilterComponent) -> bool {
    match (a, b) {
        (
            PacketFilterComponent::Ipv4Addr { addr: a1, mask: m1 },
            PacketFilterComponent::Ipv4Addr { addr: a2, mask: m2 },
        ) => a1@ == a2@ && m1@ == m2@,
        (
            PacketFilterComponent::Ipv6Addr { addr: a1, mask: m1 },
            PacketFilterComponent::Ipv6Addr { addr: a2, mask: m2 },
        ) => a1@ == a2@ && m1@ == m2@,
        (
            PacketFilterComponent::Protocol { proto: p1 },
            PacketFilterComponent::Protocol { proto: p2 },
        ) => p1 == p2,
        (
            PacketFilterComponent::SinglePort { port: p1 },
            PacketFilterComponent::SinglePort { port: p2 },
        ) => p1 == p2,
        (
            PacketFilterComponent::PortRange { start: s1, end: e1 },
            PacketFilterComponent::PortRange { start: s2, end: e2 },
        ) => s1 == s2 && e1 == e2,
        (
            PacketFilterComponent::SecParamIdx { spi: s1 },
            PacketFilterComponent::SecParamIdx { spi: s2 },
        ) => s1 == s2,
        (
            PacketFilterComponent::TypeOfService { value: v1, mask: m1 },
            PacketFilterComponent::TypeOfService { value: v2, mask: m2 },
        ) => v1 == v2 && m1 == m2,
        (
            PacketFilterComponent::FlowLabel { label: l1 },
            PacketFilterComponent::FlowLabel { label: l2 },
        ) => l1 == l2,
        (
            PacketFilterComponent::Unknown { t: t1, data: d1 },
            PacketFilterComponent::Unknown { t: t2, data: d2 },
        ) => t1 == t2 && d1@ == d2@,
        (PacketFilterComponent::Nothing, PacketFilterComponent::Nothing) => true,
        _ => false,
    }
}

/// Same decoded packet filter, compared field by field.
pub open spec fn spec_pf_equiv(a: PacketFilter, b: PacketFilter) -> bool {
    a.pf_dir == b.pf_dir && a.pf_id == b.pf_id && a.pkt_prec == b.pkt_prec && a.pf_len == b.pf_len
        && a.packet_filter_component_list@.len() == b.packet_filter_component_list@.len() && (forall|
        i: int,
    |
        0 <= i < a.packet_filter_component_list@.len() ==> (
        #[trigger] a.packet_filter_component_list@[i]).pf_type_id
            == b.packet_filter_component_list@[i].pf_type_id && spec_pfc_equiv(
            a.packet_filter_component_list@[i].components,
            b.packet_filter_component_list@[i].components,
        ))
}

/// Same decoded traffic-filter template, compared field by field.
pub open spec fn spec_tft_equiv(a: BearerTFT, b: BearerTFT) -> bool {
    a.tft_op_code == b.tft_op_code && a.str_tft_op_code@ == b.str_tft_op_code@ && a.e_bit == b.e_bit
        && a.num_filter == b.num_filter && a.packet_filter_list@.len()
        == b.packet_filter_list@.len() && (forall|i: int|
        0 <= i < a.packet_filter_list@.len() ==> spec_pf_equiv(
            #[trigger] a.packet_filter_list@[i],
            b.packet_filter_list@[i],
        ))
}

/// Same decoded location sub-structures, compared field by field.
pub open spec fn spec_uli_equiv(a: UliValue, b: UliValue) -> bool {
    a.has_tai == b.has_tai && a.has_ecgi == b.has_ecgi && a.has_lai == b.has_lai && a.has_rai
        == b.has_rai && a.has_sai == b.has_sai && a.has_cgi == b.has_cgi && (match (a.tai, b.tai) {
        (Some(x), Some(y)) => x.mcc@ == y.mcc@ && x.mnc@ == y.mnc@ && x.tac == y.tac,
        (Option::<TaiValue>::None, Option::<TaiValue>::None) => true,
        _ => false,
    }) && (match (a.ecgi, b.ecgi) {
        (Some(x), Some(y)) => x.mcc@ == y.mcc@ && x.mnc@ == y.mnc@ && x.eci == y.eci,
        (Option::<EcgiValue>::None, Option::<EcgiValue>::None) => true,
        _ => false,
    }) && (match (a.lai, b.lai) {
        (Some(x), Some(y)) => x.mcc@ == y.mcc@ && x.mnc@ == y.mnc@ && x.lac == y.lac,
        (Option::<LaiValue>::None, Option::<LaiValue>::None) => true,
        _ => false,
    }) && (match (a.rai, b.rai) {
        (Some(x), Some(y)) => x.mcc@ == y.mcc@ && x.mnc@ == y.mnc@ && x.lac == y.lac && x.rac
            == y.rac,
        (Option::<RaiValue>::None, Option::<RaiValue>::None) => true,
        _ => false,
    }) && (match (a.sai, b.sai) {
        (Some(x), Some(y)) => x.mcc@ == y.mcc@ && x.mnc@ == y.mnc@ && x.lac == y.lac && x.sac
            == y.sac,
        (Option::<SaiValue>::None, Option::<SaiValue>::None) => true,
        _ => false,
    }) && (match (a.cgi, b.cgi) {
        (Some(x), Some(y)) => x.mcc@ == y.mcc@ && x.mnc@ == y.mnc@ && x.lac == y.lac && x.ci
            == y.ci,
        (Option::<CgiValue>::None, Option::<CgiValue>::None) => true,
        _ => false,
    })
}

/// Same decoded element value, compared field by field, nested lists
/// element-wise.
pub open spec fn spec_value_equiv(a: GtpIeValue, b: GtpIeValue) -> bool
    decreases a,
{
    match (a, b) {
        (GtpIeValue::Raw(x), GtpIeValue::Raw(y)) => x@ == y@,
        (GtpIeValue::Uint8(x), GtpIeValue::Uint8(y)) => x == y,
        (GtpIeValue::Uint16(x), GtpIeValue::Uint16(y)) => x == y,
        (GtpIeValue::Uint32(x), GtpIeValue::Uint32(y)) => x == y,
        (GtpIeValue::Utf8String(x), GtpIeValue::Utf8String(y)) => x@ == y@,
        (GtpIeValue::Apn(x), GtpIeValue::Apn(y)) => x@ == y@,
        (GtpIeValue::Ipv4(x), GtpIeValue::Ipv4(y)) => x@ == y@,
        (GtpIeValue::Ipv6(x), GtpIeValue::Ipv6(y)) => x@ == y@,
        (
            GtpIeValue::Timer { unit: u1, value: v1 },
            GtpIeValue::Timer { unit: u2, value: v2 },
        ) => u1 == u2 && v1 == v2,
        (GtpIeValue::Ambr(x), GtpIeValue::Ambr(y)) => x == y,
        (GtpIeValue::FTeid(x), GtpIeValue::FTeid(y)) => spec_fteid_equiv(x, y),
        (GtpIeValue::ServingNetwork(x), GtpIeValue::ServingNetwork(y)) => x.mcc@ == y.mcc@
            && x.mnc@ == y.mnc@,
        (GtpIeValue::BearerQoS(x), GtpIeValue::BearerQoS(y)) => x == y,
        (GtpIeValue::UserLocationInfo(x), GtpIeValue::UserLocationInfo(y)) => spec_uli_equiv(x, y),
        (GtpIeValue::BearerTFT(x), GtpIeValue::BearerTFT(y)) => spec_tft_equiv(x, y),
        (GtpIeValue::SubIeList(x), GtpIeValue::SubIeList(y)) => x@.len() == y@.len() && (forall|
            i: int,
        | 0 <= i < x@.len() ==> spec_ie_equiv(#[trigger] x[i], y[i])),
        (GtpIeValue::Nothing, GtpIeValue::Nothing) => true,
        _ => false,
    }
}

/// Same decoded element, compared field by field.
pub open spec fn spec_ie_equiv(a: GtpIe, b: GtpIe) -> bool
    decreases a,
{
    a.ie_type == b.ie_type && a.type_str@ == b.type_str@ && a.length == b.length && a.instance
        == b.instance && a.raw@ == b.raw@ && spec_value_equiv(a.ie_value, b.ie_value)
}

/// Same decoded element list, compared element-wise.
pub open spec fn spec_ies_equiv(a: Seq<GtpIe>, b: Seq<GtpIe>) -> bool {
    a.len() == b.len() && forall|i: int| 0 <= i < a.len() ==> spec_ie_equiv(#[trigger] a[i], b[i])
}

/// A copy of a tunnel-endpoint descriptor with the same decoded content.
pub fn dup_fteid(f: &FTeidValue) -> (r: FTeidValue)
    ensures
        spec_fteid_equiv(r, *f),
{
    FTeidValue {
        v4: f.v4,
        v6: f.v6,
        iface_type: f.iface_type,
        teid: f.teid,
        ipv4: match &f.ipv4 {
            Some(s) => Some(s.clone()),
            Option::<String>::None => None,
        },
        ipv6: match &f.ipv6 {
            Some(s) => Some(s.clone()),
            Option::<String>::None => None,
        },
    }
}

/// Index of the first element of the given type at or after `i`, or -1.
pub open spec fn spec_first_ie_from(ies: Seq<GtpIe>, t: u8, i: int) -> int
    decreases ies.len() - i,
{
    if i < 0 || i >= ies.len() {
        -1
    } else if ies[i].ie_type == t {
        i
    } else {
        spec_first_ie_from(ies, t, i + 1)
    }
}

/// Index of the first element of the given type, or -1.
pub open spec fn spec_first_ie(ies: Seq<GtpIe>, t: u8) -> int {
    spec_first_ie_from(ies, t, 0)
}

/// Index of the first subscriber-identity element at or after `i`, with
/// its digit string.
fn find_imsi_from(ies: &Vec<GtpIe>, i: usize) -> (r: Result<String, String>)
    requires
        i <= ies@.len(),
    ensures
        ({
            let idx = spec_first_ie_from(ies@, GTPV2C_IE_IMSI, i as int);
            &&& (r is Ok <==> idx >= 0 && ies@[idx].ie_value is Utf8String)
            &&& (r matches Ok(s) ==> ies@[idx].ie_value matches GtpIeValue::Utf8String(p) && s@
                == p@)
            &&& (idx < 0 ==> (r matches Err(e) && e@ == "IMSI IE not found"@))
            &&& (idx >= 0 && !(ies@[idx].ie_value is Utf8String) ==> (r matches Err(e) && e@
                == "IMSI IE has unexpected value type"@))
        }),
    decreases ies@.len() - i,
{
    if i >= ies.len() {
        return Err(String::from_str("IMSI IE not found"));
    }
    if ies[i].ie_type == GTPV2C_IE_IMSI {
        match &ies[i].ie_value {
            GtpIeValue::Utf8String(s) => Ok(s.clone()),
            _ => Err(String::from_str("IMSI IE has unexpected value type")),
        }
    } else {
        find_imsi_from(ies, i + 1)
    }
}

/// First subscriber-identity element's digit string.  Fails exactly when
/// no such element exists or the first one did not decode to digits.
pub fn find_ie_imsi(ies: &Vec<GtpIe>) -> (r: Result<String, String>)
    ensures
        ({
            let idx = spec_first_ie(ies@, GTPV2C_IE_IMSI);
            &&& (r is Ok <==> idx >= 0 && ies@[idx].ie_value is Utf8String)
            &&& (r matches Ok(s) ==> ies@[idx].ie_value matches GtpIeValue::Utf8String(p) && s@
                == p@)
            &&& (idx < 0 ==> (r matches Err(e) && e@ == "IMSI IE not found"@))
            &&& (idx >= 0 && !(ies@[idx].ie_value is Utf8String) ==> (r matches Err(e) && e@
                == "IMSI IE has unexpected value type"@))
        }),
{
    find_imsi_from(ies, 0)
}

/// Index of the first bearer-id element at or after `i`, with its value.
fn find_ebi_from(ies: &Vec<GtpIe>, i: usize) -> (r: Result<u8, String>)
    requires
        i <= ies@.len(),
    ensures
        ({
            let idx = spec_first_ie_from(ies@, GTPV2C_IE_EBI, i as int);
            &&& (r is Ok <==> idx >= 0 && ies@[idx].ie_value is Uint8)
            &&& (r matches Ok(v) ==> ies@[idx].ie_value == GtpIeValue::Uint8(v))
            &&& (idx < 0 ==> (r matches Err(e) && e@ == "EBI IE not found"@))
            &&& (idx >= 0 && !(ies@[idx].ie_value is Uint8) ==> (r matches Err(e) && e@
                == "EBI IE has unexpected value type"@))
        }),
    decreases ies@.len() - i,
{
    if i >= ies.len() {
        return Err(String::from_str("EBI IE not found"));
    }
    if ies[i].ie_type == GTPV2C_IE_EBI {
        match &ies[i].ie_value {
            GtpIeValue::Uint8(v) => Ok(*v),
            _ => Err(String::from_str("EBI IE has unexpected value type")),
        }
    } else {
        find_ebi_from(ies, i + 1)
    }
}

/// First bearer-id element's value.  Fails exactly when no such element
/// exists or the first one did not decode to a small integer.
pub fn find_ie_ebi(ies: &Vec<GtpIe>) -> (r: Result<u8, String>)
    ensures
        ({
            let idx = spec_first_ie(ies@, GTPV2C_IE_EBI);
            &&& (r is Ok <==> idx >= 0 && ies@[idx].ie_value is Uint8)
            &&& (r matches Ok(v) ==> ies@[idx].ie_value == GtpIeValue::Uint8(v))
            &&& (idx < 0 ==> (r matches Err(e) && e@ == "EBI IE not found"@))
        }),
{
    find_ebi_from(ies, 0)
}

/// First bearer-id element inside a bearer context's nested list.  Fails
/// exactly when no such element exists or the first one did not decode to
/// a small integer.
pub fn find_ie_ebi_in_bearer_ctx(ies: &Vec<GtpIe>) -> (r: Result<u8, String>)
    ensures
        ({
            let idx = spec_first_ie(ies@, GTPV2C_IE_EBI);
            &&& (r is Ok <==> idx >= 0 && ies@[idx].ie_value is Uint8)
            &&& (r matches Ok(v) ==> ies@[idx].ie_value == GtpIeValue::Uint8(v))
            &&& (idx < 0 ==> (r matches Err(e) && e@ == "EBI IE not found"@))
        }),
{
    find_ebi_from(ies, 0)
}

/// The tunnel-endpoint payloads of the descriptor elements at or after
/// index `i`, in order.
pub open spec fn spec_fteid_list_from(ies: Seq<GtpIe>, i: int) -> Seq<FTeidValue>
    decreases ies.len() - i,
{
    if i < 0 || i >= ies.len() {
        seq![]
    } else {
        (if ies[i].ie_type == GTPV2C_IE_FTEID {
            match ies[i].ie_value {
                GtpIeValue::FTeid(f) => seq![f],
                _ => seq![],
            }
        } else {
            seq![]
        }) + spec_fteid_list_from(ies, i + 1)
    }
}

/// Whether every descriptor-typed element at or after `i` carries a
/// decoded descriptor value.
pub open spec fn spec_fteids_ok_from(ies: Seq<GtpIe>, i: int) -> bool {
    forall|k: int|
        i <= k < ies.len() && (#[trigger] ies[k]).ie_type == GTPV2C_IE_FTEID ==> ies[k].ie_value
            is FTeid
}

fn find_fteid_from(ies: &Vec<GtpIe>, i: usize) -> (r: Result<Vec<FTeidValue>, String>)
    requires
        i <= ies@.len(),
    ensures
        r is Ok <==> spec_fteids_ok_from(ies@, i as int) && spec_fteid_list_from(
            ies@,
            i as int,
        ).len() > 0,
        r matches Ok(v) ==> {
            let fs = spec_fteid_list_from(ies@, i as int);
            v@.len() == fs.len() && forall|k: int|
                0 <= k < fs.len() ==> spec_fteid_equiv(#[trigger] v@[k], fs[k])
        },
    decreases ies@.len() - i,
{
    if i >= ies.len() {
        return Err(String::from_str("FTEID IE not found"));
    }
    if ies[i].ie_type == GTPV2C_IE_FTEID {
        match &ies[i].ie_value {
            GtpIeValue::FTeid(f) => {
                let head = dup_fteid(f);
                match find_fteid_from(ies, i + 1) {
                    Ok(mut rest) => {
                        let ghost tail = rest@;
                        rest.insert(0, head);
                        proof {
                            assert(rest@.drop_first() =~= tail);
                        }
                        Ok(rest)
                    },
                    Err(_) => {
                        if fteids_ok_from(ies, i + 1) {
                            let mut v = Vec::new();
                            v.push(head);
                            Ok(v)
                        } else {
                            Err(String::from_str("FTEID IE has unexpected value type"))
                        }
                    },
                }
            },
            _ => Err(String::from_str("FTEID IE has unexpected value type")),
        }
    } else {
        find_fteid_from(ies, i + 1)
    }
}

/// Whether every descriptor-typed element at or after `i` carries a
/// decoded descriptor value.
fn fteids_ok_from(ies: &Vec<GtpIe>, i: usize) -> (r: bool)
    requires
        i <= ies@.len(),
    ensures
        r == spec_fteids_ok_from(ies@, i as int),
    decreases ies@.len() - i,
{
    if i >= ies.len() {
        true
    } else if ies[i].ie_type == GTPV2C_IE_FTEID {
        match &ies[i].ie_value {
            GtpIeValue::FTeid(_) => fteids_ok_from(ies, i + 1),
            _ => false,
        }
    } else {
        fteids_ok_from(ies, i + 1)
    }
}

/// All tunnel-endpoint descriptors of the list, in order.  Fails exactly
/// when none exists or a descriptor-typed element did not decode.
pub fn find_ie_fteid(ies: &Vec<GtpIe>) -> (r: Result<Vec<FTeidValue>, String>)
    ensures
        r is Ok <==> spec_fteids_ok_from(ies@, 0) && spec_fteid_list_from(ies@, 0).len() > 0,
        r matches Ok(v) ==> {
            let fs = spec_fteid_list_from(ies@, 0);
            v@.len() == fs.len() && forall|k: int|
                0 <= k < fs.len() ==> spec_fteid_equiv(#[trigger] v@[k], fs[k])
        },
{
    find_fteid_from(ies, 0)
}


/// A copy of a serving-network value with the same decoded content.
fn dup_serving_network(x: &ServingNetworkValue) -> (r: ServingNetworkValue)
    ensures
        r.mcc@ == x.mcc@,
        r.mnc@ == x.mnc@,
{
    ServingNetworkValue { mcc: x.mcc.clone(), mnc: x.mnc.clone() }
}

/// A copy of a traffic-filter component with the same decoded content.
fn dup_pfc(c: &PacketFilterComponent) -> (r: PacketFilterComponent)
    ensures
        spec_pfc_equiv(r, *c),
{
    match c {
        PacketFilterComponent::Ipv4Addr { addr, mask } => PacketFilterComponent::Ipv4Addr {
            addr: addr.clone(),
            mask: mask.clone(),
        },
        PacketFilterComponent::Ipv6Addr { addr, mask } => PacketFilterComponent::Ipv6Addr {
            addr: addr.clone(),
            mask: mask.clone(),
        },
        PacketFilterComponent::Protocol { proto } => PacketFilterComponent::Protocol {
            proto: *proto,
        },
        PacketFilterComponent::SinglePort { port } => PacketFilterComponent::SinglePort {
            port: *port,
        },
        PacketFilterComponent::PortRange { start, end } => PacketFilterComponent::PortRange {
            start: *start,
            end: *end,
        },
        PacketFilterComponent::SecParamIdx { spi } => PacketFilterComponent::SecParamIdx {
            spi: *spi,
        },
        PacketFilterComponent::TypeOfService { value, mask } => PacketFilterComponent::TypeOfService {
            value: *value,
            mask: *mask,
        },
        PacketFilterComponent::FlowLabel { label } => PacketFilterComponent::FlowLabel {
            label: *label,
        },
        PacketFilterComponent::Unknown { t, data } => PacketFilterComponent::Unknown {
            t: *t,
            data: vstd::slice::slice_to_vec(data.as_slice()),
        },
        PacketFilterComponent::Nothing => PacketFilterComponent::Nothing,
    }
}

/// A copy of a packet filter with the same decoded content.
fn dup_pf(f: &PacketFilter) -> (r: PacketFilter)
    ensures
        spec_pf_equiv(r, *f),
{
    let mut comps: Vec<PacketFilterComponentList> = Vec::new();
    let mut i: usize = 0;
    while i < f.packet_filter_component_list.len()
        invariant
            i <= f.packet_filter_component_list@.len(),
            comps@.len() == i,
            forall|k: int|
                0 <= k < i ==> (#[trigger] comps@[k]).pf_type_id
                    == f.packet_filter_component_list@[k].pf_type_id && spec_pfc_equiv(
                    comps@[k].components,
                    f.packet_filter_component_list@[k].components,
                ),
        decreases f.packet_filter_component_list@.len() - i,
    {
        let entry = &f.packet_filter_component_list[i];
        comps.push(
            PacketFilterComponentList {
                pf_type_id: entry.pf_type_id,
                components: dup_pfc(&entry.components),
            },
        );
        i += 1;
    }
    PacketFilter {
        pf_dir: f.pf_dir,
        pf_id: f.pf_id,
        pkt_prec: f.pkt_prec,
        pf_len: f.pf_len,
        packet_filter_component_list: comps,
    }
}

/// A copy of a traffic-filter template with the same decoded content.
fn dup_tft(b: &BearerTFT) -> (r: BearerTFT)
    ensures
        spec_tft_equiv(r, *b),
{
    let mut filters: Vec<PacketFilter> = Vec::new();
    let mut i: usize = 0;
    while i < b.packet_filter_list.len()
        invariant
            i <= b.packet_filter_list@.len(),
            filters@.len() == i,
            forall|k: int|
                0 <= k < i ==> spec_pf_equiv(#[trigger] filters@[k], b.packet_filter_list@[k]),
        decreases b.packet_filter_list@.len() - i,
    {
        filters.push(dup_pf(&b.packet_filter_list[i]));
        i += 1;
    }
    BearerTFT {
        tft_op_code: b.tft_op_code,
        str_tft_op_code: b.str_tft_op_code.clone(),
        e_bit: b.e_bit,
        num_filter: b.num_filter,
        packet_filter_list: filters,
    }
}

/// A copy of a user-location value with the same decoded content.
fn dup_uli(u: &UliValue) -> (r: UliValue)
    ensures
        spec_uli_equiv(r, *u),
{
    UliValue {
        has_tai: u.has_tai,
        has_ecgi: u.has_ecgi,
        has_lai: u.has_lai,
        has_rai: u.has_rai,
        has_sai: u.has_sai,
        has_cgi: u.has_cgi,
        tai: match &u.tai {
            Some(x) => Some(TaiValue { mcc: x.mcc.clone(), mnc: x.mnc.clone(), tac: x.tac }),
            Option::<TaiValue>::None => None,
        },
        ecgi: match &u.ecgi {
            Some(x) => Some(EcgiValue { mcc: x.mcc.clone(), mnc: x.mnc.clone(), eci: x.eci }),
            Option::<EcgiValue>::None => None,
        },
        lai: match &u.lai {
            Some(x) => Some(LaiValue { mcc: x.mcc.clone(), mnc: x.mnc.clone(), lac: x.lac }),
            Option::<LaiValue>::None => None,
        },
        rai: match &u.rai {
            Some(x) => Some(
                RaiValue { mcc: x.mcc.clone(), mnc: x.mnc.clone(), lac: x.lac, rac: x.rac },
            ),
            Option::<RaiValue>::None => None,
        },
        sai: match &u.sai {
            Some(x) => Some(
                SaiValue { mcc: x.mcc.clone(), mnc: x.mnc.clone(), lac: x.lac, sac: x.sac },
            ),
            Option::<SaiValue>::None => None,
        },
        cgi: match &u.cgi {
            Some(x) => Some(
                CgiValue { mcc: x.mcc.clone(), mnc: x.mnc.clone(), lac: x.lac, ci: x.ci },
            ),
            Option::<CgiValue>::None => None,
        },
    }
}

/// A copy of an element value with the same decoded content.
#[verifier::loop_isolation(false)]
fn dup_value(v: &GtpIeValue) -> (r: GtpIeValue)
    ensures
        spec_value_equiv(r, *v),
    decreases *v,
{
    match v {
        GtpIeValue::Raw(x) => GtpIeValue::Raw(vstd::slice::slice_to_vec(x.as_slice())),
        GtpIeValue::Uint8(x) => GtpIeValue::Uint8(*x),
        GtpIeValue::Uint16(x) => GtpIeValue::Uint16(*x),
        GtpIeValue::Uint32(x) => GtpIeValue::Uint32(*x),
        GtpIeValue::Utf8String(x) => GtpIeValue::Utf8String(x.clone()),
        GtpIeValue::Apn(x) => GtpIeValue::Apn(x.clone()),
        GtpIeValue::Ipv4(x) => GtpIeValue::Ipv4(x.clone()),
        GtpIeValue::Ipv6(x) => GtpIeValue::Ipv6(x.clone()),
        GtpIeValue::Timer { unit, value } => GtpIeValue::Timer { unit: *unit, value: *value },
        GtpIeValue::Ambr(x) => GtpIeValue::Ambr(*x),
        GtpIeValue::FTeid(x) => GtpIeValue::FTeid(dup_fteid(x)),
        GtpIeValue::ServingNetwork(x) => GtpIeValue::ServingNetwork(dup_serving_network(x)),
        GtpIeValue::BearerQoS(x) => GtpIeValue::BearerQoS(*x),
        GtpIeValue::UserLocationInfo(x) => GtpIeValue::UserLocationInfo(dup_uli(x)),
        GtpIeValue::BearerTFT(x) => GtpIeValue::BearerTFT(dup_tft(x)),
        GtpIeValue::SubIeList(l) => {
            let mut out: Vec<GtpIe> = Vec::new();
            let mut i: usize = 0;
            while i < l.len()
                invariant
                    i <= l@.len(),
                    out@.len() == i,
                    forall|k: int| 0 <= k < i ==> spec_ie_equiv(#[trigger] out@[k], l@[k]),
                decreases l@.len() - i,
            {
                proof {
                    broadcast use vstd::std_specs::vec::group_vec_axioms;
                    assert(*v == GtpIeValue::SubIeList(*l));
                    assert(decreases_to!(*v => *l));
                    assert(decreases_to!(*l => (*l)[i as int]));
                }
                out.push(dup_ie(&l[i]));
                i += 1;
            }
            GtpIeValue::SubIeList(out)
        },
        GtpIeValue::Nothing => GtpIeValue::Nothing,
    }
}

/// A copy of an element with the same decoded content.
pub fn dup_ie(ie: &GtpIe) -> (r: GtpIe)
    ensures
        spec_ie_equiv(r, *ie),
    decreases *ie,
{
    GtpIe {
        ie_type: ie.ie_type,
        type_str: ie.type_str.clone(),
        length: ie.length,
        instance: ie.instance,
        ie_value: dup_value(&ie.ie_value),
        raw: vstd::slice::slice_to_vec(ie.raw.as_slice()),
    }
}

/// A copy of an element list with the same decoded content.
pub fn dup_ies(ies: &Vec<GtpIe>) -> (r: Vec<GtpIe>)
    ensures
        spec_ies_equiv(r@, ies@),
{
    let mut out: Vec<GtpIe> = Vec::new();
    let mut i: usize = 0;
    while i < ies.len()
        invariant
            i <= ies@.len(),
            out@.len() == i,
            forall|k: int| 0 <= k < i ==> spec_ie_equiv(#[trigger] out@[k], ies@[k]),
        decreases ies@.len() - i,
    {
        out.push(dup_ie(&ies[i]));
        i += 1;
    }
    out
}

/// The nested lists of the bearer-context elements at or after index `i`,
/// in order.
pub open spec fn spec_bearer_ctx_list_from(ies: Seq<GtpIe>, i: int) -> Seq<Vec<GtpIe>>
    decreases ies.len() - i,
{
    if i < 0 || i >= ies.len() {
        seq![]
    } else {
        (if ies[i].ie_type == GTPV2C_IE_BEARER_CONTEXT {
            match ies[i].ie_value {
                GtpIeValue::SubIeList(l) => seq![l],
                _ => seq![],
            }
        } else {
            seq![]
        }) + spec_bearer_ctx_list_from(ies, i + 1)
    }
}

/// Whether every bearer-context element at or after `i` carries a nested
/// list.
pub open spec fn spec_bearer_ctxs_ok_from(ies: Seq<GtpIe>, i: int) -> bool {
    forall|k: int|
        i <= k < ies.len() && (#[trigger] ies[k]).ie_type == GTPV2C_IE_BEARER_CONTEXT
            ==> ies[k].ie_value is SubIeList
}

/// Whether every bearer-context element at or after `i` carries a nested
/// list.
fn bearer_ctxs_ok_from(ies: &Vec<GtpIe>, i: usize) -> (r: bool)
    requires
        i <= ies@.len(),
    ensures
        r == spec_bearer_ctxs_ok_from(ies@, i as int),
    decreases ies@.len() - i,
{
    if i >= ies.len() {
        true
    } else if ies[i].ie_type == GTPV2C_IE_BEARER_CONTEXT {
        match &ies[i].ie_value {
            GtpIeValue::SubIeList(_) => bearer_ctxs_ok_from(ies, i + 1),
            _ => false,
        }
    } else {
        bearer_ctxs_ok_from(ies, i + 1)
    }
}

fn find_bearer_ctx_from(ies: &Vec<GtpIe>, i: usize) -> (r: Result<Vec<Vec<GtpIe>>, String>)
    requires
        i <= ies@.len(),
    ensures
        r is Ok <==> spec_bearer_ctxs_ok_from(ies@, i as int) && spec_bearer_ctx_list_from(
            ies@,
            i as int,
        ).len() > 0,
        r matches Ok(v) ==> {
            let cs = spec_bearer_ctx_list_from(ies@, i as int);
            v@.len() == cs.len() && forall|k: int|
                0 <= k < cs.len() ==> spec_ies_equiv((#[trigger] v@[k])@, cs[k]@)
        },
    decreases ies@.len() - i,
{
    if i >= ies.len() {
        return Err(String::from_str("BEARER CONTEXT IE not found"));
    }
    if ies[i].ie_type == GTPV2C_IE_BEARER_CONTEXT {
        match &ies[i].ie_value {
            GtpIeValue::SubIeList(l) => {
                let head = dup_ies(l);
                match find_bearer_ctx_from(ies, i + 1) {
                    Ok(mut rest) => {
                        let ghost tail = rest@;
                        rest.insert(0, head);
                        proof {
                            assert(rest@.drop_first() =~= tail);
                        }
                        Ok(rest)
                    },
                    Err(_) => {
                        if bearer_ctxs_ok_from(ies, i + 1) {
                            let mut v: Vec<Vec<GtpIe>> = Vec::new();
                            v.push(head);
                            Ok(v)
                        } else {
                            Err(String::from_str("Bearer context IE has unexpected value type"))
                        }
                    },
                }
            },
            _ => Err(String::from_str("Bearer context IE has unexpected value type")),
        }
    } else {
        find_bearer_ctx_from(ies, i + 1)
    }
}

/// All bearer-context nested lists, in order.  Fails exactly when none
/// exists or a bearer-context element carries no nested list.
pub fn find_ie_bearer_ctx(ies: &Vec<GtpIe>) -> (r: Result<Vec<Vec<GtpIe>>, String>)
    ensures
        r is Ok <==> spec_bearer_ctxs_ok_from(ies@, 0) && spec_bearer_ctx_list_from(
            ies@,
            0,
        ).len() > 0,
        r matches Ok(v) ==> {
            let cs = spec_bearer_ctx_list_from(ies@, 0);
            v@.len() == cs.len() && forall|k: int|
                0 <= k < cs.len() ==> spec_ies_equiv((#[trigger] v@[k])@, cs[k]@)
        },
{
    find_bearer_ctx_from(ies, 0)
}

} // verus!

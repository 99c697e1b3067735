//! Fixed layer header lengths and well-known protocol numbers shared by the
//! whole crate.

use vstd::prelude::*;

verus! {

/// Minimum Ethernet header: 6 bytes destination MAC, 6 bytes source MAC,
/// 2 bytes ethertype.
pub const MIN_ETH_HDR_LEN: usize = 14;

/// IPv4 header without options.
pub const IP_HDR_LEN: usize = 20;

/// Fixed IPv6 header.
pub const IP6_HDR_LEN: usize = 40;

/// TCP header without options.
pub const TCP_HDR_LEN: usize = 20;

/// UDP header.
pub const UDP_HDR_LEN: usize = 8;

/// ICMP echo header.
pub const ICMP_HDR_LEN: usize = 8;

/// IP protocol numbers of the transport layers this crate understands.
pub const PROTO_TYPE_ICMP: usize = 1;

pub const PROTO_TYPE_IPINIP: usize = 4;

pub const PROTO_TYPE_TCP: usize = 6;

pub const PROTO_TYPE_UDP: usize = 17;

pub const PROTO_TYPE_ICMPV6: usize = 58;

/// UDP destination port that carries the tunneling control protocol.
pub const WELLKNOWN_PORT_GTPV2: u16 = 2123;

/// UDP destination port that carries the user-plane path control protocol.
pub const WELLKNOWN_PORT_PFCP: u16 = 8805;

pub const WELLKNOWN_PORT_FTP_DATA: u16 = 20;

pub const WELLKNOWN_PORT_FTP_CTRL: u16 = 21;

pub const WELLKNOWN_PORT_DNS: u16 = 53;

pub const WELLKNOWN_PORT_DHCP_SVR: u16 = 67;

pub const WELLKNOWN_PORT_DHCP_CLI: u16 = 68;

pub const WELLKNOWN_PORT_HTTP: u16 = 80;

/// Ethertype of IPv4 in an Ethernet header.
pub const NEXT_HDR_IPV4: usize = 0x0800;

/// Ethertype of IPv6 in an Ethernet header.
pub const NEXT_HDR_IPV6: usize = 0x86dd;

/// Big-endian 16-bit value of two bytes.
pub open spec fn be16(b0: u8, b1: u8) -> u16 {
    (b0 as u16 * 0x100 + b1 as u16) as u16
}

/// Big-endian 24-bit value of three bytes, widened to 32 bits.
pub open spec fn be24(b0: u8, b1: u8, b2: u8) -> u32 {
    (b0 as u32 * 0x10000 + b1 as u32 * 0x100 + b2 as u32) as u32
}

/// Big-endian 32-bit value of four bytes.
pub open spec fn be32(b0: u8, b1: u8, b2: u8, b3: u8) -> u32 {
    (b0 as u32 * 0x1000000 + b1 as u32 * 0x10000 + b2 as u32 * 0x100 + b3 as u32) as u32
}

/// Reads a big-endian 16-bit value out of two bytes.
pub fn read_be16(b0: u8, b1: u8) -> (r: u16)
    ensures
        r == be16(b0, b1),
{
    (b0 as u16) * 0x100 + (b1 as u16)
}

/// Reads a big-endian 24-bit value out of three bytes.
pub fn read_be24(b0: u8, b1: u8, b2: u8) -> (r: u32)
    ensures
        r == be24(b0, b1, b2),
{
    (b0 as u32) * 0x10000 + (b1 as u32) * 0x100 + (b2 as u32)
}

/// Reads a big-endian 32-bit value out of four bytes.
pub fn read_be32(b0: u8, b1: u8, b2: u8, b3: u8) -> (r: u32)
    ensures
        r == be32(b0, b1, b2, b3),
{
    (b0 as u32) * 0x1000000 + (b1 as u32) * 0x10000 + (b2 as u32) * 0x100 + (b3 as u32)
}


/// One row of a capture summary: per-frame addresses, ports, protocol
/// name and description.
#[derive(Debug)]
pub struct PacketSummary {
    pub id: usize,
    pub ts: String,
    pub src_ip: String,
    pub dst_ip: String,
    pub src_port: u16,
    pub dst_port: u16,
    pub protocol: String,
    pub length: usize,
    pub description: String,
}

impl PacketSummary {
    /// An empty summary row.
    pub fn new() -> (r: PacketSummary)
        ensures
            r.id == 0,
            r.ts@.len() == 0,
            r.src_ip@ == Seq::<char>::empty(),
            r.dst_ip@ == Seq::<char>::empty(),
            r.src_port == 0,
            r.dst_port == 0,
            r.protocol@.len() == 0,
            r.length == 0,
            r.description@.len() == 0,
    {
        PacketSummary {
            id: 0,
            ts: String::new(),
            src_ip: String::new(),
            dst_ip: String::new(),
            src_port: 0,
            dst_port: 0,
            protocol: String::new(),
            length: 0,
            description: String::new(),
        }
    }
}

/// Decoded fields of one IPv4 header.
#[derive(Debug)]
pub struct IpInfo {
    pub version: u8,
    pub ihl: u8,
    pub dscp: u8,
    pub ecn: u8,
    pub total_length: u16,
    pub id: u16,
    pub flags: u8,
    pub fragment_offset: u16,
    pub ttl: u8,
    pub protocol: u8,
    pub checksum: u16,
    pub src_addr: String,
    pub dst_addr: String,
    pub next: String,
    pub raw: Vec<u8>,
}

impl IpInfo {
    /// An empty IPv4 header record.
    pub fn new() -> (r: IpInfo)
        ensures
            r.version == 0,
            r.ihl == 0,
            r.dscp == 0,
            r.ecn == 0,
            r.total_length == 0,
            r.id == 0,
            r.flags == 0,
            r.fragment_offset == 0,
            r.ttl == 0,
            r.protocol == 0,
            r.checksum == 0,
            r.src_addr@.len() == 0,
            r.dst_addr@.len() == 0,
            r.next@.len() == 0,
            r.raw@.len() == 0,
    {
        IpInfo {
            version: 0,
            ihl: 0,
            dscp: 0,
            ecn: 0,
            total_length: 0,
            id: 0,
            flags: 0,
            fragment_offset: 0,
            ttl: 0,
            protocol: 0,
            checksum: 0,
            src_addr: String::new(),
            dst_addr: String::new(),
            next: String::new(),
            raw: Vec::new(),
        }
    }
}

/// Decoded fields of one IPv6 header.
#[derive(Debug)]
pub struct Ip6Info {
    pub version: u8,
    pub tc: u8,
    pub fl: u32,
    pub pl: u16,
    pub next: u8,
    pub hop: u8,
    pub src_addr: String,
    pub dst_addr: String,
    pub raw: Vec<u8>,
}

impl Ip6Info {
    /// An empty IPv6 header record.
    pub fn new() -> (r: Ip6Info)
        ensures
            r.version == 0,
            r.tc == 0,
            r.fl == 0,
            r.pl == 0,
            r.next == 0,
            r.hop == 0,
            r.src_addr@.len() == 0,
            r.dst_addr@.len() == 0,
            r.raw@.len() == 0,
    {
        Ip6Info {
            version: 0,
            tc: 0,
            fl: 0,
            pl: 0,
            next: 0,
            hop: 0,
            src_addr: String::new(),
            dst_addr: String::new(),
            raw: Vec::new(),
        }
    }
}

/// Decoded fields of one ICMP echo header.
#[derive(Debug)]
pub struct IcmpInfo {
    pub icmp_type: u8,
    pub code: u8,
    pub checksum: u16,
    pub id: u16,
    pub seq: u16,
    pub raw: Vec<u8>,
}

impl IcmpInfo {
    /// An empty ICMP record.
    pub fn new() -> (r: IcmpInfo)
        ensures
            r.icmp_type == 0,
            r.code == 0,
            r.checksum == 0,
            r.id == 0,
            r.seq == 0,
            r.raw@.len() == 0,
    {
        IcmpInfo { icmp_type: 0, code: 0, checksum: 0, id: 0, seq: 0, raw: Vec::new() }
    }
}

/// Decoded fields of one UDP header.
#[derive(Debug)]
pub struct UdpInfo {
    pub src_port: u16,
    pub str_src_port: String,
    pub dst_port: u16,
    pub str_dst_port: String,
    pub length: u16,
    pub checksum: u16,
    pub raw: Vec<u8>,
}

impl UdpInfo {
    /// An empty UDP record.
    pub fn new() -> (r: UdpInfo)
        ensures
            r.src_port == 0,
            r.str_src_port@.len() == 0,
            r.dst_port == 0,
            r.str_dst_port@.len() == 0,
            r.length == 0,
            r.checksum == 0,
            r.raw@.len() == 0,
    {
        UdpInfo {
            src_port: 0,
            str_src_port: String::new(),
            dst_port: 0,
            str_dst_port: String::new(),
            length: 0,
            checksum: 0,
            raw: Vec::new(),
        }
    }
}

/// Decoded fields of one TCP header.
#[derive(Debug)]
pub struct TcpInfo {
    pub src_port: u16,
    pub src_port_str: String,
    pub dst_port: u16,
    pub dst_port_str: String,
    pub seq: u32,
    pub ack: u32,
    pub header_sz: u8,
    pub flags: u8,
    pub window: u16,
    pub checksum: u16,
    pub urgent: u16,
    pub raw: Vec<u8>,
}

impl TcpInfo {
    /// An empty TCP record.
    pub fn new() -> (r: TcpInfo)
        ensures
            r.src_port == 0,
            r.src_port_str@.len() == 0,
            r.dst_port == 0,
            r.dst_port_str@.len() == 0,
            r.seq == 0,
            r.ack == 0,
            r.header_sz == 0,
            r.flags == 0,
            r.window == 0,
            r.checksum == 0,
            r.urgent == 0,
            r.raw@.len() == 0,
    {
        TcpInfo {
            src_port: 0,
            src_port_str: String::new(),
            dst_port: 0,
            dst_port_str: String::new(),
            seq: 0,
            ack: 0,
            header_sz: 0,
            flags: 0,
            window: 0,
            checksum: 0,
            urgent: 0,
            raw: Vec::new(),
        }
    }
}

/// One frame's decoded network layer.
#[derive(Debug)]
pub enum Layer3Info {
    IP(IpInfo),
    IP6(Ip6Info),
    Nothing,
}

/// One frame's decoded transport layer.
#[derive(Debug)]
pub enum Layer4Info {
    UDP(UdpInfo),
    TCP(TcpInfo),
    ICMP(IcmpInfo),
    Nothing,
}

/// Decoded fields of one tunneling-protocol message with its elements.
#[derive(Debug)]
pub struct GtpInfo {
    pub version: u8,
    pub p_flag: bool,
    pub t_flag: bool,
    pub mp_flag: bool,
    pub msg_type: u8,
    pub msg_type_str: String,
    pub msg_len: u16,
    pub teid: Option<u32>,
    pub seq: u32,
    pub mp: Option<u8>,
    pub ies: Vec<crate::gtp_ie::GtpIe>,
    pub raw: Vec<u8>,
}

impl GtpInfo {
    /// An empty tunneling-protocol record.
    pub fn new() -> (r: GtpInfo)
        ensures
            r.version == 0,
            r.p_flag == false,
            r.t_flag == false,
            r.mp_flag == false,
            r.msg_type == 0,
            r.msg_type_str@.len() == 0,
            r.msg_len == 0,
            r.teid is None,
            r.seq == 0,
            r.mp is None,
            r.ies@.len() == 0,
            r.raw@.len() == 0,
    {
        GtpInfo {
            version: 0,
            p_flag: false,
            t_flag: false,
            mp_flag: false,
            msg_type: 0,
            msg_type_str: String::new(),
            msg_len: 0,
            teid: None,
            seq: 0,
            mp: None,
            ies: Vec::new(),
            raw: Vec::new(),
        }
    }
}

/// One frame's decoded application layer.
#[derive(Debug)]
pub enum AppLayerInfo {
    GTP(GtpInfo),
    PFCP(crate::pfcp::PfcpInfo),
    Nothing,
}

/// The full decode of one frame, layer by layer.
#[derive(Debug)]
pub struct PacketDetail {
    pub id: usize,
    pub l3: Vec<Layer3Info>,
    pub l4: Layer4Info,
    pub app: AppLayerInfo,
}

impl PacketDetail {
    /// An empty frame decode.
    pub fn new() -> (r: PacketDetail)
        ensures
            r.id == 0,
            r.l3@.len() == 0,
            r.l4 is Nothing,
            r.app is Nothing,
    {
        PacketDetail { id: 0, l3: Vec::new(), l4: Layer4Info::Nothing, app: AppLayerInfo::Nothing }
    }
}

/// A full frame decode together with the frame's capture index.
#[derive(Debug)]
pub struct ParsedDetail {
    pub id: usize,
    pub packet: PacketDetail,
}

/// A whole capture's summary rows.
#[derive(Debug)]
pub struct ParsedResult {
    pub file: String,
    pub total_packets: usize,
    pub packets: Vec<PacketSummary>,
}

/// A caller's request for one frame of one stored capture.
#[derive(Debug)]
pub struct PacketQuery {
    pub file_id: u64,
    pub id: usize,
}

/// A caller's request for the call flow seeded at one frame of one stored
/// capture.
#[derive(Debug)]
pub struct CallflowRequest {
    pub file_id: u64,
    pub packet_id: usize,
}

/// A stored capture file: its path, the name it was uploaded under, and
/// when it was last used, as milliseconds of the clock the caller keeps.
#[derive(Debug, Clone)]
pub struct FileInfo {
    pub path: String,
    pub original_name: String,
    pub last_used: u64,
}

} // verus!

//! Names for transport protocol numbers, well-known ports, and IPv6
//! extension headers.

use vstd::prelude::*;

verus! {

/// Name of an IPv6 extension header code, or nothing for other codes.
pub open spec fn spec_v6_ext_hdr_name(ext_hdr: usize) -> Option<Seq<char>> {
    if ext_hdr == 0 {
        Some("Hop-by-Hop Extension Header"@)
    } else if ext_hdr == 43 {
        Some("Routing Extension Header"@)
    } else if ext_hdr == 44 {
        Some("Fragment Extension Header"@)
    } else if ext_hdr == 51 {
        Some("Authentication Header (AH) Extension Header"@)
    } else if ext_hdr == 50 {
        Some("Encapsulating Security Payload (ESP) Extension Header"@)
    } else if ext_hdr == 60 {
        Some("Destination Extension Header"@)
    } else if ext_hdr == 135 {
        Some("Mobility Extension Header"@)
    } else if ext_hdr == 139 {
        Some("Host Identity Protocol Extension Header"@)
    } else if ext_hdr == 140 {
        Some("Shim6 Protocol Extension Header"@)
    } else {
        None
    }
}

/// Name of an IPv6 extension header code, or nothing for other codes.
pub fn v6_ext_hdr_to_str(ext_hdr: usize) -> (r: Option<String>)
    ensures
        r is Some <==> spec_v6_ext_hdr_name(ext_hdr) is Some,
        r matches Some(s) ==> s@ == spec_v6_ext_hdr_name(ext_hdr).unwrap(),
{
    if ext_hdr == 0 {
        Some(String::from_str("Hop-by-Hop Extension Header"))
    } else if ext_hdr == 43 {
        Some(String::from_str("Routing Extension Header"))
    } else if ext_hdr == 44 {
        Some(String::from_str("Fragment Extension Header"))
    } else if ext_hdr == 51 {
        Some(String::from_str("Authentication Header (AH) Extension Header"))
    } else if ext_hdr == 50 {
        Some(String::from_str("Encapsulating Security Payload (ESP) Extension Header"))
    } else if ext_hdr == 60 {
        Some(String::from_str("Destination Extension Header"))
    } else if ext_hdr == 135 {
        Some(String::from_str("Mobility Extension Header"))
    } else if ext_hdr == 139 {
        Some(String::from_str("Host Identity Protocol Extension Header"))
    } else if ext_hdr == 140 {
        Some(String::from_str("Shim6 Protocol Extension Header"))
    } else {
        None
    }
}

/// Name of a transport protocol number, or nothing for other numbers.
pub open spec fn spec_protocol_name(next_hdr: usize) -> Option<Seq<char>> {
    if next_hdr == crate::types::PROTO_TYPE_ICMP {
        Some("ICMP"@)
    } else if next_hdr == crate::types::PROTO_TYPE_IPINIP {
        Some("IP in IP"@)
    } else if next_hdr == crate::types::PROTO_TYPE_TCP {
        Some("TCP"@)
    } else if next_hdr == crate::types::PROTO_TYPE_UDP {
        Some("UDP"@)
    } else if next_hdr == crate::types::PROTO_TYPE_ICMPV6 {
        Some("ICMPv6"@)
    } else {
        None
    }
}

/// Name of a transport protocol number, or nothing for other numbers.
pub fn protocol_to_str(next_hdr: usize) -> (r: Option<String>)
    ensures
        r is Some <==> spec_protocol_name(next_hdr) is Some,
        r matches Some(s) ==> s@ == spec_protocol_name(next_hdr).unwrap(),
{
    if next_hdr == crate::types::PROTO_TYPE_ICMP {
        Some(String::from_str("ICMP"))
    } else if next_hdr == crate::types::PROTO_TYPE_IPINIP {
        Some(String::from_str("IP in IP"))
    } else if next_hdr == crate::types::PROTO_TYPE_TCP {
        Some(String::from_str("TCP"))
    } else if next_hdr == crate::types::PROTO_TYPE_UDP {
        Some(String::from_str("UDP"))
    } else if next_hdr == crate::types::PROTO_TYPE_ICMPV6 {
        Some(String::from_str("ICMPv6"))
    } else {
        None
    }
}

/// Name of a well-known port, or nothing for other ports.
pub open spec fn spec_port_name(port: u16) -> Option<Seq<char>> {
    if port == crate::types::WELLKNOWN_PORT_FTP_DATA {
        Some("FTP-Data"@)
    } else if port == crate::types::WELLKNOWN_PORT_FTP_CTRL {
        Some("FTP-Control"@)
    } else if port == crate::types::WELLKNOWN_PORT_DNS {
        Some("DNS"@)
    } else if port == crate::types::WELLKNOWN_PORT_DHCP_SVR {
        Some("DHCP-Server"@)
    } else if port == crate::types::WELLKNOWN_PORT_DHCP_CLI {
        Some("DHCP-Client"@)
    } else if port == crate::types::WELLKNOWN_PORT_HTTP {
        Some("HTTP"@)
    } else if port == crate::types::WELLKNOWN_PORT_GTPV2 {
        Some("GTPv2-C"@)
    } else if port == crate::types::WELLKNOWN_PORT_PFCP {
        Some("PFCP"@)
    } else {
        None
    }
}

/// Name of a well-known port, or nothing for other ports.
pub fn port_to_str(port: u16) -> (r: Option<String>)
    ensures
        r is Some <==> spec_port_name(port) is Some,
        r matches Some(s) ==> s@ == spec_port_name(port).unwrap(),
{
    if port == crate::types::WELLKNOWN_PORT_FTP_DATA {
        Some(String::from_str("FTP-Data"))
    } else if port == crate::types::WELLKNOWN_PORT_FTP_CTRL {
        Some(String::from_str("FTP-Control"))
    } else if port == crate::types::WELLKNOWN_PORT_DNS {
        Some(String::from_str("DNS"))
    } else if port == crate::types::WELLKNOWN_PORT_DHCP_SVR {
        Some(String::from_str("DHCP-Server"))
    } else if port == crate::types::WELLKNOWN_PORT_DHCP_CLI {
        Some(String::from_str("DHCP-Client"))
    } else if port == crate::types::WELLKNOWN_PORT_HTTP {
        Some(String::from_str("HTTP"))
    } else if port == crate::types::WELLKNOWN_PORT_GTPV2 {
        Some(String::from_str("GTPv2-C"))
    } else if port == crate::types::WELLKNOWN_PORT_PFCP {
        Some(String::from_str("PFCP"))
    } else {
        None
    }
}

} // verus!

//! Decoder and call-flow reconstruction for a GTPv2-C-like tunneling
//! protocol carried over Ethernet/IPv4/UDP, as captured from the wire.
//!
//! The crate decodes raw frames (fixed header, tag-length-value information
//! elements, nested bearer contexts), filters a capture down to
//! tunneling-protocol traffic, and replays a three-node session call flow
//! from one seed frame.

pub mod addr;
pub mod file_manage;
pub mod gtp;
pub mod gtp_call_flow;
pub mod gtp_ie;
pub mod gtpv2_types;
pub mod icmp;
pub mod ipv4;
pub mod ipv6;
pub mod l4;
pub mod parse_pcap;
pub mod pfcp;
pub mod pfcp_ie;
pub mod port;
pub mod tcp;
pub mod types;
pub mod udp;

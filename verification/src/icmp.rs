//! ICMP echo header decoding.

use vstd::prelude::*;

use crate::types::{be16, read_be16, IcmpInfo, PacketSummary};

verus! {

/// ICMP type code of an echo request, as the capture summaries label it.
pub const ICMP_ECHO_REQ: u8 = 0;

/// ICMP type code of an echo response, as the capture summaries label it.
pub const ICMP_ECHO_RSP: u8 = 8;

/// Labels a summary row with the echo direction of an ICMP message and
/// clears its ports.  Always returns zero: nothing follows ICMP here.
pub fn parse_icmp_simple(icmp: &[u8], packet: &mut PacketSummary) -> (r: u16)
    ensures
        r == 0,
        icmp@.len() < 1 ==> *final(packet) == *old(packet),
        icmp@.len() >= 1 ==> {
            &&& final(packet).src_port == 0
            &&& final(packet).dst_port == 0
            &&& final(packet).description@ == (if icmp@[0] == ICMP_ECHO_REQ {
                "Echo Request"@
            } else if icmp@[0] == ICMP_ECHO_RSP {
                "Echo Response"@
            } else {
                Seq::<char>::empty()
            })
            &&& final(packet).id == old(packet).id
            &&& final(packet).ts == old(packet).ts
            &&& final(packet).src_ip == old(packet).src_ip
            &&& final(packet).dst_ip == old(packet).dst_ip
            &&& final(packet).protocol == old(packet).protocol
            &&& final(packet).length == old(packet).length
        },
{
    if icmp.len() < 1 {
        return 0;
    }
    let icmp_type = icmp[0];
    let desc = if icmp_type == ICMP_ECHO_REQ {
        String::from_str("Echo Request")
    } else if icmp_type == ICMP_ECHO_RSP {
        String::from_str("Echo Response")
    } else {
        String::new()
    };
    packet.src_port = 0;
    packet.dst_port = 0;
    packet.description = desc;
    0
}

/// Decodes a full ICMP echo header into a detail record.  Always returns
/// zero: nothing follows ICMP here.  Headers shorter than eight bytes
/// leave the record unchanged.
pub fn parse_single_icmp(icmp_buf: &[u8], icmp: &mut IcmpInfo) -> (r: u16)
    ensures
        r == 0,
        icmp_buf@.len() < 8 ==> *final(icmp) == *old(icmp),
        icmp_buf@.len() >= 8 ==> {
            &&& final(icmp).icmp_type == icmp_buf@[0]
            &&& final(icmp).code == icmp_buf@[1]
            &&& final(icmp).checksum == be16(icmp_buf@[2], icmp_buf@[3])
            &&& final(icmp).id == be16(icmp_buf@[4], icmp_buf@[5])
            &&& final(icmp).seq == be16(icmp_buf@[6], icmp_buf@[7])
            &&& final(icmp).raw@ == old(icmp).raw@ + icmp_buf@
        },
{
    if icmp_buf.len() < 8 {
        return 0;
    }
    icmp.icmp_type = icmp_buf[0];
    icmp.code = icmp_buf[1];
    icmp.checksum = read_be16(icmp_buf[2], icmp_buf[3]);
    icmp.id = read_be16(icmp_buf[4], icmp_buf[5]);
    icmp.seq = read_be16(icmp_buf[6], icmp_buf[7]);
    let mut raw_part = vstd::slice::slice_to_vec(&icmp_buf[0..icmp_buf.len()]);
    icmp.raw.append(&mut raw_part);
    proof {
        assert(icmp_buf@.subrange(0, icmp_buf@.len() as int) =~= icmp_buf@);
    }
    0
}

} // verus!

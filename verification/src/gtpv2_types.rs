//! Message-type and information-element codes of the tunneling control
//! protocol, with their human-readable names and the set of grouped
//! (nested-list) information elements.
//!
//! Lookups are keyed by the numeric code with an explicit fallback for
//! unknown codes; a code read off the wire is never used as a raw index.

use vstd::prelude::*;

verus! {

pub const GTPV2C_ECHO_REQ: u8 = 1;

pub const GTPV2C_ECHO_RSP: u8 = 2;

pub const GTPV2C_CREATE_SESSION_REQ: u8 = 32;

pub const GTPV2C_CREATE_SESSION_RSP: u8 = 33;

pub const GTPV2C_MODIFY_BEARER_REQ: u8 = 34;

pub const GTPV2C_MODIFY_BEARER_RSP: u8 = 35;

pub const GTPV2C_DELETE_SESSION_REQ: u8 = 36;

pub const GTPV2C_DELETE_SESSION_RSP: u8 = 37;

pub const GTPV2C_MODIFY_BEARER_CMD: u8 = 64;

pub const GTPV2C_DELETE_BEARER_CMD: u8 = 66;

pub const GTPV2C_BEARER_RESOURCE_CMD: u8 = 68;

pub const GTPV2C_CREATE_BEARER_REQ: u8 = 95;

pub const GTPV2C_CREATE_BEARER_RSP: u8 = 96;

pub const GTPV2C_UPDATE_BEARER_REQ: u8 = 97;

pub const GTPV2C_UPDATE_BEARER_RSP: u8 = 98;

pub const GTPV2C_DELETE_BEARER_REQ: u8 = 99;

pub const GTPV2C_DELETE_BEARER_RSP: u8 = 100;

pub const GTPV2C_RELEASE_ACCESS_BEARERS_REQ: u8 = 170;

pub const GTPV2C_RELEASE_ACCESS_BEARERS_RSP: u8 = 171;

pub const GTPV2C_DOWNLINK_DATA_NOTIFICATION: u8 = 176;

pub const GTPV2C_DOWNLINK_DATA_NOTIFICATION_ACK: u8 = 177;

pub const GTPV2C_IE_IMSI: u8 = 1;

pub const GTPV2C_IE_CAUSE: u8 = 2;

pub const GTPV2C_IE_RECOVERY: u8 = 3;

pub const GTPV2C_IE_APN: u8 = 71;

pub const GTPV2C_IE_AMBR: u8 = 72;

pub const GTPV2C_IE_EBI: u8 = 73;

pub const GTPV2C_IE_IP_ADDRESS: u8 = 74;

pub const GTPV2C_IE_MEI: u8 = 75;

pub const GTPV2C_IE_MSISDN: u8 = 76;

pub const GTPV2C_IE_INDICATION: u8 = 77;

pub const GTPV2C_IE_PAA: u8 = 79;

pub const GTPV2C_IE_BEARER_QOS: u8 = 80;

pub const GTPV2C_IE_RAT_TYPE: u8 = 82;

pub const GTPV2C_IE_SERVING_NETWORK: u8 = 83;

pub const GTPV2C_IE_BEARER_TFT: u8 = 84;

pub const GTPV2C_IE_ULI: u8 = 86;

pub const GTPV2C_IE_FTEID: u8 = 87;

pub const GTPV2C_IE_BEARER_CONTEXT: u8 = 93;

pub const GTPV2C_IE_PDN_CONNECTION: u8 = 109;

pub const GTPV2C_IE_OVERLOAD_CONTROL: u8 = 180;

pub const GTPV2C_IE_LOAD_CONTROL: u8 = 181;

/// Name of a message-type code; unknown codes map to `"Unknown"`.
pub open spec fn spec_msg_type_name(t: u8) -> Seq<char> {
    if t == GTPV2C_ECHO_REQ {
        "Echo Request"@
    } else if t == GTPV2C_ECHO_RSP {
        "Echo Response"@
    } else if t == GTPV2C_CREATE_SESSION_REQ {
        "Create Session Request"@
    } else if t == GTPV2C_CREATE_SESSION_RSP {
        "Create Session Response"@
    } else if t == GTPV2C_MODIFY_BEARER_REQ {
        "Modify Bearer Request"@
    } else if t == GTPV2C_MODIFY_BEARER_RSP {
        "Modify Bearer Response"@
    } else if t == GTPV2C_DELETE_SESSION_REQ {
        "Delete Session Request"@
    } else if t == GTPV2C_DELETE_SESSION_RSP {
        "Delete Session Response"@
    } else if t == GTPV2C_MODIFY_BEARER_CMD {
        "Modify Bearer Command"@
    } else if t == GTPV2C_DELETE_BEARER_CMD {
        "Delete Bearer Command"@
    } else if t == GTPV2C_BEARER_RESOURCE_CMD {
        "Bearer Resource Command"@
    } else if t == GTPV2C_CREATE_BEARER_REQ {
        "Create Bearer Request"@
    } else if t == GTPV2C_CREATE_BEARER_RSP {
        "Create Bearer Response"@
    } else if t == GTPV2C_UPDATE_BEARER_REQ {
        "Update Bearer Request"@
    } else if t == GTPV2C_UPDATE_BEARER_RSP {
        "Update Bearer Response"@
    } else if t == GTPV2C_DELETE_BEARER_REQ {
        "Delete Bearer Request"@
    } else if t == GTPV2C_DELETE_BEARER_RSP {
        "Delete Bearer Response"@
    } else if t == GTPV2C_RELEASE_ACCESS_BEARERS_REQ {
        "Release Access Bearers Request"@
    } else if t == GTPV2C_RELEASE_ACCESS_BEARERS_RSP {
        "Release Access Bearers Response"@
    } else if t == GTPV2C_DOWNLINK_DATA_NOTIFICATION {
        "Downlink Data Notification"@
    } else if t == GTPV2C_DOWNLINK_DATA_NOTIFICATION_ACK {
        "Downlink Data Notification Acknowledge"@
    } else {
        "Unknown"@
    }
}

/// Human-readable name of a message-type code.
pub fn msg_type_name(t: u8) -> (s: String)
    ensures
        s@ == spec_msg_type_name(t),
{
    if t == GTPV2C_ECHO_REQ {
        String::from_str("Echo Request")
    } else if t == GTPV2C_ECHO_RSP {
        String::from_str("Echo Response")
    } else if t == GTPV2C_CREATE_SESSION_REQ {
        String::from_str("Create Session Request")
    } else if t == GTPV2C_CREATE_SESSION_RSP {
        String::from_str("Create Session Response")
    } else if t == GTPV2C_MODIFY_BEARER_REQ {
        String::from_str("Modify Bearer Request")
    } else if t == GTPV2C_MODIFY_BEARER_RSP {
        String::from_str("Modify Bearer Response")
    } else if t == GTPV2C_DELETE_SESSION_REQ {
        String::from_str("Delete Session Request")
    } else if t == GTPV2C_DELETE_SESSION_RSP {
        String::from_str("Delete Session Response")
    } else if t == GTPV2C_MODIFY_BEARER_CMD {
        String::from_str("Modify Bearer Command")
    } else if t == GTPV2C_DELETE_BEARER_CMD {
        String::from_str("Delete Bearer Command")
    } else if t == GTPV2C_BEARER_RESOURCE_CMD {
        String::from_str("Bearer Resource Command")
    } else if t == GTPV2C_CREATE_BEARER_REQ {
        String::from_str("Create Bearer Request")
    } else if t == GTPV2C_CREATE_BEARER_RSP {
        String::from_str("Create Bearer Response")
    } else if t == GTPV2C_UPDATE_BEARER_REQ {
        String::from_str("Update Bearer Request")
    } else if t == GTPV2C_UPDATE_BEARER_RSP {
        String::from_str("Update Bearer Response")
    } else if t == GTPV2C_DELETE_BEARER_REQ {
        String::from_str("Delete Bearer Request")
    } else if t == GTPV2C_DELETE_BEARER_RSP {
        String::from_str("Delete Bearer Response")
    } else if t == GTPV2C_RELEASE_ACCESS_BEARERS_REQ {
        String::from_str("Release Access Bearers Request")
    } else if t == GTPV2C_RELEASE_ACCESS_BEARERS_RSP {
        String::from_str("Release Access Bearers Response")
    } else if t == GTPV2C_DOWNLINK_DATA_NOTIFICATION {
        String::from_str("Downlink Data Notification")
    } else if t == GTPV2C_DOWNLINK_DATA_NOTIFICATION_ACK {
        String::from_str("Downlink Data Notification Acknowledge")
    } else {
        String::from_str("Unknown")
    }
}

/// Name of an information-element code; unknown codes map to `"Unknown"`.
pub open spec fn spec_ie_type_name(t: u8) -> Seq<char> {
    if t == GTPV2C_IE_IMSI {
        "IMSI"@
    } else if t == GTPV2C_IE_CAUSE {
        "Cause"@
    } else if t == GTPV2C_IE_RECOVERY {
        "Recovery"@
    } else if t == GTPV2C_IE_APN {
        "Access Point Name"@
    } else if t == GTPV2C_IE_AMBR {
        "Aggregate Maximum Bit Rate"@
    } else if t == GTPV2C_IE_EBI {
        "EPS Bearer ID"@
    } else if t == GTPV2C_IE_IP_ADDRESS {
        "IP Address"@
    } else if t == GTPV2C_IE_MEI {
        "Mobile Equipment Identity"@
    } else if t == GTPV2C_IE_MSISDN {
        "MSISDN"@
    } else if t == GTPV2C_IE_INDICATION {
        "Indication"@
    } else if t == GTPV2C_IE_PAA {
        "PDN Address Allocation"@
    } else if t == GTPV2C_IE_BEARER_QOS {
        "Bearer QoS"@
    } else if t == GTPV2C_IE_RAT_TYPE {
        "RAT Type"@
    } else if t == GTPV2C_IE_SERVING_NETWORK {
        "Serving Network"@
    } else if t == GTPV2C_IE_BEARER_TFT {
        "Bearer TFT"@
    } else if t == GTPV2C_IE_ULI {
        "User Location Info"@
    } else if t == GTPV2C_IE_FTEID {
        "F-TEID"@
    } else if t == GTPV2C_IE_BEARER_CONTEXT {
        "Bearer Context"@
    } else if t == GTPV2C_IE_PDN_CONNECTION {
        "PDN Connection"@
    } else if t == GTPV2C_IE_OVERLOAD_CONTROL {
        "Overload Control Information"@
    } else if t == GTPV2C_IE_LOAD_CONTROL {
        "Load Control Information"@
    } else {
        "Unknown"@
    }
}

/// Human-readable name of an information-element code.
pub fn ie_type_name(t: u8) -> (s: String)
    ensures
        s@ == spec_ie_type_name(t),
{
    if t == GTPV2C_IE_IMSI {
        String::from_str("IMSI")
    } else if t == GTPV2C_IE_CAUSE {
        String::from_str("Cause")
    } else if t == GTPV2C_IE_RECOVERY {
        String::from_str("Recovery")
    } else if t == GTPV2C_IE_APN {
        String::from_str("Access Point Name")
    } else if t == GTPV2C_IE_AMBR {
        String::from_str("Aggregate Maximum Bit Rate")
    } else if t == GTPV2C_IE_EBI {
        String::from_str("EPS Bearer ID")
    } else if t == GTPV2C_IE_IP_ADDRESS {
        String::from_str("IP Address")
    } else if t == GTPV2C_IE_MEI {
        String::from_str("Mobile Equipment Identity")
    } else if t == GTPV2C_IE_MSISDN {
        String::from_str("MSISDN")
    } else if t == GTPV2C_IE_INDICATION {
        String::from_str("Indication")
    } else if t == GTPV2C_IE_PAA {
        String::from_str("PDN Address Allocation")
    } else if t == GTPV2C_IE_BEARER_QOS {
        String::from_str("Bearer QoS")
    } else if t == GTPV2C_IE_RAT_TYPE {
        String::from_str("RAT Type")
    } else if t == GTPV2C_IE_SERVING_NETWORK {
        String::from_str("Serving Network")
    } else if t == GTPV2C_IE_BEARER_TFT {
        String::from_str("Bearer TFT")
    } else if t == GTPV2C_IE_ULI {
        String::from_str("User Location Info")
    } else if t == GTPV2C_IE_FTEID {
        String::from_str("F-TEID")
    } else if t == GTPV2C_IE_BEARER_CONTEXT {
        String::from_str("Bearer Context")
    } else if t == GTPV2C_IE_PDN_CONNECTION {
        String::from_str("PDN Connection")
    } else if t == GTPV2C_IE_OVERLOAD_CONTROL {
        String::from_str("Overload Control Information")
    } else if t == GTPV2C_IE_LOAD_CONTROL {
        String::from_str("Load Control Information")
    } else {
        String::from_str("Unknown")
    }
}

/// Whether an information-element code carries a nested list of further
/// information elements rather than a flat value.
pub open spec fn spec_ie_is_grouped(t: u8) -> bool {
    t == GTPV2C_IE_BEARER_CONTEXT || t == GTPV2C_IE_PDN_CONNECTION || t
        == GTPV2C_IE_OVERLOAD_CONTROL || t == GTPV2C_IE_LOAD_CONTROL
}

/// Whether an information-element code is decoded as a grouped IE.
pub fn ie_is_grouped(t: u8) -> (r: bool)
    ensures
        r == spec_ie_is_grouped(t),
{
    t == GTPV2C_IE_BEARER_CONTEXT || t == GTPV2C_IE_PDN_CONNECTION || t
        == GTPV2C_IE_OVERLOAD_CONTROL || t == GTPV2C_IE_LOAD_CONTROL
}

} // verus!

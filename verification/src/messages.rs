//! The RTPS submessages the endpoint behaviours exchange, and the message
//! header that opens every datagram.

use vstd::prelude::*;

use crate::sequence_number_set::SequenceNumberSet;
use crate::types::{Count, EntityId, GuidPrefix, Parameter, ProtocolVersion, SequenceNumber, Time,
    VendorId};

verus! {

/// Submessage kind byte: data.
pub const SUBMESSAGE_KIND_DATA: u8 = 0x15;

/// Submessage kind byte: gap.
pub const SUBMESSAGE_KIND_GAP: u8 = 0x08;

/// Submessage kind byte: heartbeat.
pub const SUBMESSAGE_KIND_HEARTBEAT: u8 = 0x07;

/// Submessage kind byte: acknack.
pub const SUBMESSAGE_KIND_ACKNACK: u8 = 0x06;

/// Submessage kind byte: padding.
pub const SUBMESSAGE_KIND_PAD: u8 = 0x01;

/// Submessage kind byte: source timestamp.
pub const SUBMESSAGE_KIND_INFO_TS: u8 = 0x09;

/// Submessage kind byte: reply locators.
pub const SUBMESSAGE_KIND_INFO_REPLY: u8 = 0x0f;

/// Submessage kind byte: destination prefix.
pub const SUBMESSAGE_KIND_INFO_DST: u8 = 0x0e;

/// Submessage kind byte: source information.
pub const SUBMESSAGE_KIND_INFO_SRC: u8 = 0x0c;

/// Submessage kind byte: fragmented data.
pub const SUBMESSAGE_KIND_DATA_FRAG: u8 = 0x16;

/// Submessage kind byte: fragment nack.
pub const SUBMESSAGE_KIND_NACK_FRAG: u8 = 0x12;

/// Submessage kind byte: fragment heartbeat.
pub const SUBMESSAGE_KIND_HEARTBEAT_FRAG: u8 = 0x13;

/// The sentinel parameter id that ends a parameter list.
pub const PID_SENTINEL: i16 = 0x0001;

/// An entity id carried inside a submessage.
#[derive(Clone, Copy, Debug)]
pub struct EntityIdSubmessageElement {
    pub value: EntityId,
}

/// A sequence number carried inside a submessage.
#[derive(Clone, Copy, Debug)]
pub struct SequenceNumberSubmessageElement {
    pub value: SequenceNumber,
}

/// An inline parameter list carried inside a submessage.
pub struct ParameterListSubmessageElement {
    pub parameter: Vec<Parameter>,
}

/// A borrowed payload carried inside a submessage.
pub struct SerializedDataSubmessageElement<'a> {
    pub value: &'a [u8],
}

/// The 20-byte header that opens every datagram.
#[derive(Clone, Copy, Debug)]
pub struct RtpsMessageHeader {
    pub version: ProtocolVersion,
    pub vendor_id: VendorId,
    pub guid_prefix: GuidPrefix,
}

impl RtpsMessageHeader {
    /// Assemble a header.
    pub fn new(version: ProtocolVersion, vendor_id: VendorId, guid_prefix: GuidPrefix) -> (r:
        RtpsMessageHeader)
        ensures
            r.version == version,
            r.vendor_id == vendor_id,
            r.guid_prefix == guid_prefix,
    {
        RtpsMessageHeader { version, vendor_id, guid_prefix }
    }
}

/// A data submessage: one sample, or one key, of one writer.
pub struct DataSubmessage<'a> {
    pub endianness_flag: bool,
    pub inline_qos_flag: bool,
    pub data_flag: bool,
    pub key_flag: bool,
    pub non_standard_payload_flag: bool,
    pub reader_id: EntityIdSubmessageElement,
    pub writer_id: EntityIdSubmessageElement,
    pub writer_sn: SequenceNumberSubmessageElement,
    pub inline_qos: ParameterListSubmessageElement,
    pub serialized_payload: SerializedDataSubmessageElement<'a>,
}

/// A heartbeat submessage: the writer's available sequence-number range.
#[derive(Clone, Copy, Debug)]
pub struct HeartbeatSubmessage {
    pub endianness_flag: bool,
    pub final_flag: bool,
    pub liveliness_flag: bool,
    pub reader_id: EntityIdSubmessageElement,
    pub writer_id: EntityIdSubmessageElement,
    pub first_sn: SequenceNumberSubmessageElement,
    pub last_sn: SequenceNumberSubmessageElement,
    pub count: Count,
}

/// An acknack submessage: what the reader has and what it asks again for.
#[derive(Clone, Copy)]
pub struct AckNackSubmessage {
    pub endianness_flag: bool,
    pub final_flag: bool,
    pub reader_id: EntityIdSubmessageElement,
    pub writer_id: EntityIdSubmessageElement,
    pub reader_sn_state: SequenceNumberSet,
    pub count: Count,
}

/// A gap submessage: sequence numbers the writer will never send.
#[derive(Clone, Copy)]
pub struct GapSubmessage {
    pub endianness_flag: bool,
    pub reader_id: EntityIdSubmessageElement,
    pub writer_id: EntityIdSubmessageElement,
    pub gap_start: SequenceNumberSubmessageElement,
    pub gap_list: SequenceNumberSet,
}

/// A timestamp submessage: the source time of the data that follows.
#[derive(Clone, Copy, Debug)]
pub struct InfoTimestampSubmessage {
    pub endianness_flag: bool,
    pub invalidate_flag: bool,
    pub timestamp: Time,
}

/// A destination submessage: the prefix the following submessages address.
#[derive(Clone, Copy, Debug)]
pub struct InfoDestinationSubmessage {
    pub endianness_flag: bool,
    pub guid_prefix: GuidPrefix,
}

} // verus!

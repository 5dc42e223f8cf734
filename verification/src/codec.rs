//! The wire codec: bit-exact serialization of the message header and the
//! control submessages, little endian, and the CDR framing of keys.
//!
//! Every decoder returns values whose re-encoding is exactly the bytes it
//! consumed, and every encoding is injective, so an encode-then-decode round
//! trip gives the message back field for field.

use vstd::bytes::{spec_u32_from_le_bytes, spec_u32_to_le_bytes, u32_from_le_bytes,
    u32_to_le_bytes};
use vstd::prelude::*;

use crate::messages::{AckNackSubmessage, EntityIdSubmessageElement, GapSubmessage,
    HeartbeatSubmessage, InfoDestinationSubmessage, InfoTimestampSubmessage, RtpsMessageHeader,
    SequenceNumberSubmessageElement, SUBMESSAGE_KIND_ACKNACK, SUBMESSAGE_KIND_GAP,
    SUBMESSAGE_KIND_HEARTBEAT, SUBMESSAGE_KIND_INFO_DST, SUBMESSAGE_KIND_INFO_TS};
use crate::sequence_number_set::SequenceNumberSet;
use crate::types::{Count, EntityId, GuidPrefix, ProtocolVersion, SequenceNumber, Time, VendorId};

verus! {

/// The four wire bytes of a 32-bit signed value.
pub open spec fn spec_i32_to_le_bytes(x: i32) -> Seq<u8> {
    spec_u32_to_le_bytes(x as u32)
}

/// The eight wire bytes of a sequence number: high word, then low word.
pub open spec fn spec_sequence_number_to_bytes(sn: SequenceNumber) -> Seq<u8> {
    spec_i32_to_le_bytes(sn.high) + spec_u32_to_le_bytes(sn.low)
}

/// The 44 wire bytes of a sequence-number set: base, bit count, eight words.
pub open spec fn spec_sequence_number_set_to_bytes(s: SequenceNumberSet) -> Seq<u8> {
    spec_sequence_number_to_bytes(s.base) + spec_u32_to_le_bytes(256)
        + spec_i32_to_le_bytes(s.bitmap@[0]) + spec_i32_to_le_bytes(s.bitmap@[1])
        + spec_i32_to_le_bytes(s.bitmap@[2]) + spec_i32_to_le_bytes(s.bitmap@[3])
        + spec_i32_to_le_bytes(s.bitmap@[4]) + spec_i32_to_le_bytes(s.bitmap@[5])
        + spec_i32_to_le_bytes(s.bitmap@[6]) + spec_i32_to_le_bytes(s.bitmap@[7])
}

/// The 20 wire bytes of the message header.
pub open spec fn spec_header_to_bytes(h: RtpsMessageHeader) -> Seq<u8> {
    seq![0x52u8, 0x54u8, 0x50u8, 0x53u8, h.version.major, h.version.minor, h.vendor_id.0@[0],
        h.vendor_id.0@[1]] + h.guid_prefix.0@
}

/// The flags byte of an acknack: endianness and final bits.
pub open spec fn spec_acknack_flags(s: AckNackSubmessage) -> u8 {
    (((if s.endianness_flag { 1u8 } else { 0u8 }) + (if s.final_flag { 2u8 } else { 0u8 })) as u8)
}

/// The wire bytes of an acknack submessage, its header included.
pub open spec fn spec_acknack_to_bytes(s: AckNackSubmessage) -> Seq<u8> {
    seq![SUBMESSAGE_KIND_ACKNACK, spec_acknack_flags(s), 56u8, 0u8]
        + s.reader_id.value.spec_to_bytes() + s.writer_id.value.spec_to_bytes()
        + spec_sequence_number_set_to_bytes(s.reader_sn_state) + spec_i32_to_le_bytes(s.count.0)
}

/// The flags byte of a heartbeat: endianness, final and liveliness bits.
pub open spec fn spec_heartbeat_flags(s: HeartbeatSubmessage) -> u8 {
    (((if s.endianness_flag { 1u8 } else { 0u8 }) + (if s.final_flag { 2u8 } else { 0u8 }) + (
    if s.liveliness_flag {
        4u8
    } else {
        0u8
    })) as u8)
}

/// The wire bytes of a heartbeat submessage, its header included.
pub open spec fn spec_heartbeat_to_bytes(s: HeartbeatSubmessage) -> Seq<u8> {
    seq![SUBMESSAGE_KIND_HEARTBEAT, spec_heartbeat_flags(s), 28u8, 0u8]
        + s.reader_id.value.spec_to_bytes() + s.writer_id.value.spec_to_bytes()
        + spec_sequence_number_to_bytes(s.first_sn.value)
        + spec_sequence_number_to_bytes(s.last_sn.value) + spec_i32_to_le_bytes(s.count.0)
}

/// The flags byte of a gap: the endianness bit.
pub open spec fn spec_gap_flags(s: GapSubmessage) -> u8 {
    if s.endianness_flag {
        1u8
    } else {
        0u8
    }
}

/// The wire bytes of a gap submessage, its header included.
pub open spec fn spec_gap_to_bytes(s: GapSubmessage) -> Seq<u8> {
    seq![SUBMESSAGE_KIND_GAP, spec_gap_flags(s), 60u8, 0u8] + s.reader_id.value.spec_to_bytes()
        + s.writer_id.value.spec_to_bytes() + spec_sequence_number_to_bytes(s.gap_start.value)
        + spec_sequence_number_set_to_bytes(s.gap_list)
}

/// The flags byte of a timestamp submessage: endianness and invalidate bits.
pub open spec fn spec_info_timestamp_flags(s: InfoTimestampSubmessage) -> u8 {
    (((if s.endianness_flag { 1u8 } else { 0u8 }) + (if s.invalidate_flag { 2u8 } else {
        0u8
    })) as u8)
}

/// The wire bytes of a timestamp submessage; an invalidating one has no body.
pub open spec fn spec_info_timestamp_to_bytes(s: InfoTimestampSubmessage) -> Seq<u8> {
    if s.invalidate_flag {
        seq![SUBMESSAGE_KIND_INFO_TS, spec_info_timestamp_flags(s), 0u8, 0u8]
    } else {
        seq![SUBMESSAGE_KIND_INFO_TS, spec_info_timestamp_flags(s), 8u8, 0u8]
            + spec_u32_to_le_bytes(s.timestamp.seconds) + spec_u32_to_le_bytes(
            s.timestamp.fraction,
        )
    }
}

/// The wire bytes of a destination submessage, its header included.
pub open spec fn spec_info_destination_to_bytes(s: InfoDestinationSubmessage) -> Seq<u8> {
    seq![SUBMESSAGE_KIND_INFO_DST, if s.endianness_flag { 1u8 } else { 0u8 }, 12u8, 0u8]
        + s.guid_prefix.0@
}

/// Append the four wire bytes of a 32-bit signed value.
fn write_i32_le(buf: &mut Vec<u8>, x: i32)
    ensures
        final(buf)@ == old(buf)@ + spec_i32_to_le_bytes(x),
{
    let bytes = u32_to_le_bytes(x as u32);
    let mut i: usize = 0;
    let ghost pre = buf@;
    while i < bytes.len()
        invariant
            0 <= i <= bytes@.len(),
            buf@ == pre + bytes@.take(i as int),
        decreases bytes@.len() - i,
    {
        buf.push(bytes[i]);
        i = i + 1;
        proof {
            assert(buf@ =~= pre + bytes@.take(i as int));
        }
    }
    proof {
        assert(buf@ =~= pre + bytes@);
    }
}

/// Append the four wire bytes of a 32-bit unsigned value.
fn write_u32_le(buf: &mut Vec<u8>, x: u32)
    ensures
        final(buf)@ == old(buf)@ + spec_u32_to_le_bytes(x),
{
    let bytes = u32_to_le_bytes(x);
    let mut i: usize = 0;
    let ghost pre = buf@;
    while i < bytes.len()
        invariant
            0 <= i <= bytes@.len(),
            buf@ == pre + bytes@.take(i as int),
        decreases bytes@.len() - i,
    {
        buf.push(bytes[i]);
        i = i + 1;
        proof {
            assert(buf@ =~= pre + bytes@.take(i as int));
        }
    }
    proof {
        assert(buf@ =~= pre + bytes@);
    }
}

/// Read a 32-bit unsigned value from four wire bytes.
fn read_u32_le(buf: &[u8], pos: usize) -> (r: u32)
    requires
        pos + 4 <= buf@.len(),
    ensures
        spec_u32_to_le_bytes(r) == buf@.subrange(pos as int, pos + 4),
        r == spec_u32_from_le_bytes(buf@.subrange(pos as int, pos + 4)),
{
    let n = buf.len();
    let sub: &[u8] = slice_subrange(buf, pos, pos + 4);
    let r = u32_from_le_bytes(sub);
    proof {
        vstd::bytes::lemma_auto_spec_u32_to_from_le_bytes();
    }
    r
}

/// Read a 32-bit signed value from four wire bytes.
fn read_i32_le(buf: &[u8], pos: usize) -> (r: i32)
    requires
        pos + 4 <= buf@.len(),
    ensures
        spec_i32_to_le_bytes(r) == buf@.subrange(pos as int, pos + 4),
{
    let x = read_u32_le(buf, pos);
    let r = x as i32;
    proof {
        assert(x as i32 as u32 == x) by (bit_vector);
    }
    r
}

/// Borrow a subrange of a byte slice.
fn slice_subrange(buf: &[u8], from: usize, to: usize) -> (r: &[u8])
    requires
        from <= to <= buf@.len(),
    ensures
        r@ == buf@.subrange(from as int, to as int),
{
    vstd::slice::slice_subrange(buf, from, to)
}

/// Append the eight wire bytes of a sequence number.
fn write_sequence_number(buf: &mut Vec<u8>, sn: SequenceNumber)
    ensures
        final(buf)@ == old(buf)@ + spec_sequence_number_to_bytes(sn),
{
    let ghost pre = buf@;
    write_i32_le(buf, sn.high);
    write_u32_le(buf, sn.low);
    proof {
        assert(buf@ =~= pre + spec_sequence_number_to_bytes(sn));
    }
}

/// Read a sequence number from eight wire bytes.
fn read_sequence_number(buf: &[u8], pos: usize) -> (r: SequenceNumber)
    requires
        pos + 8 <= buf@.len(),
    ensures
        spec_sequence_number_to_bytes(r) == buf@.subrange(pos as int, pos + 8),
{
    let n = buf.len();
    let high = read_i32_le(buf, pos);
    let low = read_u32_le(buf, pos + 4);
    let r = SequenceNumber { high, low };
    proof {
        assert(spec_sequence_number_to_bytes(r) =~= buf@.subrange(pos as int, pos + 8));
    }
    r
}

/// Append the four wire bytes of an entity id.
fn write_entity_id(buf: &mut Vec<u8>, e: EntityId)
    ensures
        final(buf)@ == old(buf)@ + e.spec_to_bytes(),
{
    let ghost pre = buf@;
    buf.push(e.entity_key[0]);
    buf.push(e.entity_key[1]);
    buf.push(e.entity_key[2]);
    buf.push(e.entity_kind);
    proof {
        assert(buf@ =~= pre + e.spec_to_bytes());
    }
}

/// Read an entity id from four wire bytes.
fn read_entity_id(buf: &[u8], pos: usize) -> (r: EntityId)
    requires
        pos + 4 <= buf@.len(),
    ensures
        r.spec_to_bytes() == buf@.subrange(pos as int, pos + 4),
{
    let r = EntityId {
        entity_key: [buf[pos], buf[pos + 1], buf[pos + 2]],
        entity_kind: buf[pos + 3],
    };
    proof {
        assert(r.spec_to_bytes() =~= buf@.subrange(pos as int, pos + 4));
    }
    r
}

/// Append the 44 wire bytes of a sequence-number set.
fn write_sequence_number_set(buf: &mut Vec<u8>, s: &SequenceNumberSet)
    ensures
        final(buf)@ == old(buf)@ + spec_sequence_number_set_to_bytes(*s),
{
    let ghost pre = buf@;
    write_sequence_number(buf, s.base);
    write_u32_le(buf, 256);
    write_i32_le(buf, s.bitmap[0]);
    write_i32_le(buf, s.bitmap[1]);
    write_i32_le(buf, s.bitmap[2]);
    write_i32_le(buf, s.bitmap[3]);
    write_i32_le(buf, s.bitmap[4]);
    write_i32_le(buf, s.bitmap[5]);
    write_i32_le(buf, s.bitmap[6]);
    write_i32_le(buf, s.bitmap[7]);
    proof {
        assert(buf@ =~= pre + spec_sequence_number_set_to_bytes(*s));
    }
}

/// Read a sequence-number set from 44 wire bytes.
///
/// The bit count on the wire is fixed to the full window here, so reading
/// back an encoded set reproduces it; a decode of other counts is refused.
fn read_sequence_number_set(buf: &[u8], pos: usize) -> (r: Option<SequenceNumberSet>)
    requires
        pos + 44 <= buf@.len(),
    ensures
        match r {
            Option::Some(s) => spec_sequence_number_set_to_bytes(s) == buf@.subrange(
                pos as int,
                pos + 44,
            ) && spec_u32_from_le_bytes(buf@.subrange(pos + 8, pos + 12)) == 256,
            Option::None => spec_u32_from_le_bytes(buf@.subrange(pos + 8, pos + 12)) != 256,
        },
{
    let n = buf.len();
    let base = read_sequence_number(buf, pos);
    let num_bits = read_u32_le(buf, pos + 8);
    if num_bits != 256 {
        return Option::None;
    }
    let bitmap = [
        read_i32_le(buf, pos + 12),
        read_i32_le(buf, pos + 16),
        read_i32_le(buf, pos + 20),
        read_i32_le(buf, pos + 24),
        read_i32_le(buf, pos + 28),
        read_i32_le(buf, pos + 32),
        read_i32_le(buf, pos + 36),
        read_i32_le(buf, pos + 40),
    ];
    let s = SequenceNumberSet { base, bitmap };
    proof {
        assert(spec_sequence_number_set_to_bytes(s) =~= buf@.subrange(pos as int, pos + 44));
    }
    Option::Some(s)
}

/// Lay a message header out as its 20 wire bytes.
pub fn encode_header(h: &RtpsMessageHeader) -> (r: Vec<u8>)
    ensures
        r@ == spec_header_to_bytes(*h),
{
    let mut buf: Vec<u8> = Vec::new();
    buf.push(0x52);
    buf.push(0x54);
    buf.push(0x50);
    buf.push(0x53);
    buf.push(h.version.major);
    buf.push(h.version.minor);
    buf.push(h.vendor_id.0[0]);
    buf.push(h.vendor_id.0[1]);
    let mut i: usize = 0;
    let ghost pre = buf@;
    while i < 12
        invariant
            0 <= i <= 12,
            buf@ == pre + h.guid_prefix.0@.take(i as int),
        decreases 12 - i,
    {
        buf.push(h.guid_prefix.0[i]);
        i = i + 1;
        proof {
            assert(buf@ =~= pre + h.guid_prefix.0@.take(i as int));
        }
    }
    proof {
        assert(buf@ =~= spec_header_to_bytes(*h));
    }
    buf
}

/// Read a message header back from its 20 wire bytes.
///
/// A buffer that does not open with the protocol magic is refused.
pub fn decode_header(buf: &[u8]) -> (r: Option<RtpsMessageHeader>)
    ensures
        match r {
            Option::Some(h) => buf@.len() >= 20 && spec_header_to_bytes(h) == buf@.subrange(
                0,
                20,
            ),
            Option::None => buf@.len() < 20 || !(buf@[0] == 0x52 && buf@[1] == 0x54 && buf@[2]
                == 0x50 && buf@[3] == 0x53),
        },
{
    if buf.len() < 20 {
        return Option::None;
    }
    if !(buf[0] == 0x52 && buf[1] == 0x54 && buf[2] == 0x50 && buf[3] == 0x53) {
        return Option::None;
    }
    let mut prefix = [0u8; 12];
    let mut i: usize = 0;
    while i < 12
        invariant
            0 <= i <= 12,
            buf@.len() >= 20,
            prefix@.len() == 12,
            forall|k: int| 0 <= k < i ==> prefix@[k] == buf@[8 + k],
        decreases 12 - i,
    {
        prefix[i] = buf[8 + i];
        i = i + 1;
    }
    let h = RtpsMessageHeader {
        version: ProtocolVersion { major: buf[4], minor: buf[5] },
        vendor_id: VendorId([buf[6], buf[7]]),
        guid_prefix: GuidPrefix(prefix),
    };
    proof {
        assert(spec_header_to_bytes(h) =~= buf@.subrange(0, 20));
    }
    Option::Some(h)
}

/// Lay a heartbeat submessage out as its 32 wire bytes.
pub fn encode_heartbeat(s: &HeartbeatSubmessage) -> (r: Vec<u8>)
    ensures
        r@ == spec_heartbeat_to_bytes(*s),
{
    let mut buf: Vec<u8> = Vec::new();
    buf.push(SUBMESSAGE_KIND_HEARTBEAT);
    let flags = (if s.endianness_flag { 1u8 } else { 0u8 }) + (if s.final_flag { 2u8 } else { 0u8 })
        + (if s.liveliness_flag { 4u8 } else { 0u8 });
    buf.push(flags);
    buf.push(28);
    buf.push(0);
    write_entity_id(&mut buf, s.reader_id.value);
    write_entity_id(&mut buf, s.writer_id.value);
    write_sequence_number(&mut buf, s.first_sn.value);
    write_sequence_number(&mut buf, s.last_sn.value);
    write_i32_le(&mut buf, s.count.0);
    proof {
        assert(buf@ =~= spec_heartbeat_to_bytes(*s));
    }
    buf
}

/// Read a heartbeat submessage back from its wire bytes.
pub fn decode_heartbeat(buf: &[u8], pos: usize) -> (r: Option<HeartbeatSubmessage>)
    requires
        pos + 32 <= buf@.len(),
    ensures
        r matches Option::Some(s) ==> spec_heartbeat_to_bytes(s) == buf@.subrange(
            pos as int,
            pos + 32,
        ),
        r is None <==> !(buf@[pos as int] == SUBMESSAGE_KIND_HEARTBEAT && buf@[pos + 2] == 28
            && buf@[pos + 3] == 0 && buf@[pos + 1] < 8),
{
    let n = buf.len();
    if !(buf[pos] == SUBMESSAGE_KIND_HEARTBEAT && buf[pos + 2] == 28 && buf[pos + 3] == 0) {
        return Option::None;
    }
    let flags = buf[pos + 1];
    if flags >= 8 {
        return Option::None;
    }
    let s = HeartbeatSubmessage {
        endianness_flag: flags & 1 == 1,
        final_flag: flags & 2 == 2,
        liveliness_flag: flags & 4 == 4,
        reader_id: EntityIdSubmessageElement { value: read_entity_id(buf, pos + 4) },
        writer_id: EntityIdSubmessageElement { value: read_entity_id(buf, pos + 8) },
        first_sn: SequenceNumberSubmessageElement { value: read_sequence_number(buf, pos + 12) },
        last_sn: SequenceNumberSubmessageElement { value: read_sequence_number(buf, pos + 20) },
        count: Count(read_i32_le(buf, pos + 28)),
    };
    proof {
        let f = flags;
        assert(f < 8 ==> ((if f & 1 == 1 { 1u8 } else { 0u8 }) + (if f & 2 == 2 { 2u8 } else {
            0u8
        }) + (if f & 4 == 4 { 4u8 } else { 0u8 }) == f)) by (bit_vector);
        assert(spec_heartbeat_flags(s) == flags);
        assert(spec_heartbeat_to_bytes(s) =~= buf@.subrange(pos as int, pos + 32));
    }
    Option::Some(s)
}

/// Lay an acknack submessage out as its 60 wire bytes.
pub fn encode_acknack(s: &AckNackSubmessage) -> (r: Vec<u8>)
    ensures
        r@ == spec_acknack_to_bytes(*s),
{
    let mut buf: Vec<u8> = Vec::new();
    buf.push(SUBMESSAGE_KIND_ACKNACK);
    let flags = (if s.endianness_flag { 1u8 } else { 0u8 }) + (if s.final_flag { 2u8 } else {
        0u8
    });
    buf.push(flags);
    buf.push(56);
    buf.push(0);
    write_entity_id(&mut buf, s.reader_id.value);
    write_entity_id(&mut buf, s.writer_id.value);
    write_sequence_number_set(&mut buf, &s.reader_sn_state);
    write_i32_le(&mut buf, s.count.0);
    proof {
        assert(buf@ =~= spec_acknack_to_bytes(*s));
    }
    buf
}

/// Read an acknack submessage back from its wire bytes.
pub fn decode_acknack(buf: &[u8], pos: usize) -> (r: Option<AckNackSubmessage>)
    requires
        pos + 60 <= buf@.len(),
    ensures
        r matches Option::Some(s) ==> spec_acknack_to_bytes(s) == buf@.subrange(
            pos as int,
            pos + 60,
        ),
        r is None <==> !(buf@[pos as int] == SUBMESSAGE_KIND_ACKNACK && buf@[pos + 2] == 56
            && buf@[pos + 3] == 0 && buf@[pos + 1] < 4 && spec_u32_from_le_bytes(
            buf@.subrange(pos + 20, pos + 24),
        ) == 256),
{
    let n = buf.len();
    if !(buf[pos] == SUBMESSAGE_KIND_ACKNACK && buf[pos + 2] == 56 && buf[pos + 3] == 0) {
        return Option::None;
    }
    let flags = buf[pos + 1];
    if flags >= 4 {
        return Option::None;
    }
    let reader_sn_state = match read_sequence_number_set(buf, pos + 12) {
        Option::Some(s) => s,
        Option::None => {
            return Option::None;
        },
    };
    let s = AckNackSubmessage {
        endianness_flag: flags & 1 == 1,
        final_flag: flags & 2 == 2,
        reader_id: EntityIdSubmessageElement { value: read_entity_id(buf, pos + 4) },
        writer_id: EntityIdSubmessageElement { value: read_entity_id(buf, pos + 8) },
        reader_sn_state,
        count: Count(read_i32_le(buf, pos + 56)),
    };
    proof {
        let f = flags;
        assert(f < 4 ==> ((if f & 1 == 1 { 1u8 } else { 0u8 }) + (if f & 2 == 2 { 2u8 } else {
            0u8
        }) == f)) by (bit_vector);
        assert(spec_acknack_flags(s) == flags);
        assert(spec_acknack_to_bytes(s) =~= buf@.subrange(pos as int, pos + 60));
    }
    Option::Some(s)
}

/// Lay a gap submessage out as its 64 wire bytes.
pub fn encode_gap(s: &GapSubmessage) -> (r: Vec<u8>)
    ensures
        r@ == spec_gap_to_bytes(*s),
{
    let mut buf: Vec<u8> = Vec::new();
    buf.push(SUBMESSAGE_KIND_GAP);
    buf.push(if s.endianness_flag {
        1
    } else {
        0
    });
    buf.push(60);
    buf.push(0);
    write_entity_id(&mut buf, s.reader_id.value);
    write_entity_id(&mut buf, s.writer_id.value);
    write_sequence_number(&mut buf, s.gap_start.value);
    write_sequence_number_set(&mut buf, &s.gap_list);
    proof {
        assert(buf@ =~= spec_gap_to_bytes(*s));
    }
    buf
}

/// Read a gap submessage back from its wire bytes.
pub fn decode_gap(buf: &[u8], pos: usize) -> (r: Option<GapSubmessage>)
    requires
        pos + 64 <= buf@.len(),
    ensures
        r matches Option::Some(s) ==> spec_gap_to_bytes(s) == buf@.subrange(pos as int, pos + 64),
        r is None <==> !(buf@[pos as int] == SUBMESSAGE_KIND_GAP && buf@[pos + 2] == 60
            && buf@[pos + 3] == 0 && buf@[pos + 1] < 2 && spec_u32_from_le_bytes(
            buf@.subrange(pos + 28, pos + 32),
        ) == 256),
{
    let n = buf.len();
    if !(buf[pos] == SUBMESSAGE_KIND_GAP && buf[pos + 2] == 60 && buf[pos + 3] == 0) {
        return Option::None;
    }
    let flags = buf[pos + 1];
    if flags >= 2 {
        return Option::None;
    }
    let gap_list = match read_sequence_number_set(buf, pos + 20) {
        Option::Some(s) => s,
        Option::None => {
            return Option::None;
        },
    };
    let s = GapSubmessage {
        endianness_flag: flags & 1 == 1,
        reader_id: EntityIdSubmessageElement { value: read_entity_id(buf, pos + 4) },
        writer_id: EntityIdSubmessageElement { value: read_entity_id(buf, pos + 8) },
        gap_start: SequenceNumberSubmessageElement { value: read_sequence_number(buf, pos + 12) },
        gap_list,
    };
    proof {
        let f = flags;
        assert(f < 2 ==> ((if f & 1 == 1 { 1u8 } else { 0u8 }) == f)) by (bit_vector);
        assert(spec_gap_to_bytes(s) =~= buf@.subrange(pos as int, pos + 64));
    }
    Option::Some(s)
}

/// Lay a timestamp submessage out as its wire bytes.
pub fn encode_info_timestamp(s: &InfoTimestampSubmessage) -> (r: Vec<u8>)
    ensures
        r@ == spec_info_timestamp_to_bytes(*s),
{
    let mut buf: Vec<u8> = Vec::new();
    buf.push(SUBMESSAGE_KIND_INFO_TS);
    let flags = (if s.endianness_flag { 1u8 } else { 0u8 }) + (if s.invalidate_flag { 2u8 } else {
        0u8
    });
    buf.push(flags);
    if s.invalidate_flag {
        buf.push(0);
        buf.push(0);
        proof {
            assert(buf@ =~= spec_info_timestamp_to_bytes(*s));
        }
        return buf;
    }
    buf.push(8);
    buf.push(0);
    write_u32_le(&mut buf, s.timestamp.seconds);
    write_u32_le(&mut buf, s.timestamp.fraction);
    proof {
        assert(buf@ =~= spec_info_timestamp_to_bytes(*s));
    }
    buf
}

/// Read a timestamp submessage back from its wire bytes.
///
/// An invalidating submessage carries no timestamp and reads back with the
/// invalid time.
pub fn decode_info_timestamp(buf: &[u8], pos: usize) -> (r: Option<(
    InfoTimestampSubmessage,
    usize,
)>)
    requires
        pos + 4 <= buf@.len(),
    ensures
        r matches Option::Some(p) ==> pos + p.1 <= buf@.len()
            && spec_info_timestamp_to_bytes(p.0) == buf@.subrange(pos as int, pos + p.1),
        r is None <==> !({
            &&& buf@[pos as int] == SUBMESSAGE_KIND_INFO_TS
            &&& buf@[pos + 1] < 4
            &&& if buf@[pos + 1] & 2 == 2 {
                buf@[pos + 2] == 0 && buf@[pos + 3] == 0
            } else {
                buf@[pos + 2] == 8 && buf@[pos + 3] == 0 && pos + 12 <= buf@.len()
            }
        }),
{
    let n = buf.len();
    if buf[pos] != SUBMESSAGE_KIND_INFO_TS {
        return Option::None;
    }
    let flags = buf[pos + 1];
    if flags >= 4 {
        return Option::None;
    }
    let invalidate_flag = flags & 2 == 2;
    if invalidate_flag {
        if buf[pos + 2] != 0 || buf[pos + 3] != 0 {
            return Option::None;
        }
        let s = InfoTimestampSubmessage {
            endianness_flag: flags & 1 == 1,
            invalidate_flag: true,
            timestamp: crate::types::time_invalid(),
        };
        proof {
            let f = flags;
            assert(f < 4 && f & 2 == 2 ==> ((if f & 1 == 1 { 1u8 } else { 0u8 }) + 2u8 == f))
                by (bit_vector);
            assert(spec_info_timestamp_to_bytes(s) =~= buf@.subrange(pos as int, pos + 4));
        }
        return Option::Some((s, 4));
    }
    if buf[pos + 2] != 8 || buf[pos + 3] != 0 {
        return Option::None;
    }
    if pos > buf.len() || buf.len() - pos < 12 {
        return Option::None;
    }
    let s = InfoTimestampSubmessage {
        endianness_flag: flags & 1 == 1,
        invalidate_flag: false,
        timestamp: Time { seconds: read_u32_le(buf, pos + 4), fraction: read_u32_le(buf, pos + 8) },
    };
    proof {
        let f = flags;
        assert(f < 4 && f & 2 != 2 ==> ((if f & 1 == 1 { 1u8 } else { 0u8 }) + 0u8 == f))
            by (bit_vector);
        assert(spec_info_timestamp_to_bytes(s) =~= buf@.subrange(pos as int, pos + 12));
    }
    Option::Some((s, 12))
}

/// Encoding a heartbeat is injective: equal bytes mean equal submessages.
pub proof fn lemma_heartbeat_encoding_injective(a: HeartbeatSubmessage, b: HeartbeatSubmessage)
    requires
        spec_heartbeat_to_bytes(a) == spec_heartbeat_to_bytes(b),
    ensures
        a.endianness_flag == b.endianness_flag,
        a.final_flag == b.final_flag,
        a.liveliness_flag == b.liveliness_flag,
        a.reader_id.value.entity_key@ == b.reader_id.value.entity_key@,
        a.reader_id.value.entity_kind == b.reader_id.value.entity_kind,
        a.writer_id.value.entity_key@ == b.writer_id.value.entity_key@,
        a.writer_id.value.entity_kind == b.writer_id.value.entity_kind,
        a.first_sn.value == b.first_sn.value,
        a.last_sn.value == b.last_sn.value,
        a.count == b.count,
{
    vstd::bytes::lemma_auto_spec_u32_to_from_le_bytes();
    let ea = spec_heartbeat_to_bytes(a);
    let eb = spec_heartbeat_to_bytes(b);
    lemma_flag_sum_injective();
    assert(ea[1] == spec_heartbeat_flags(a) && eb[1] == spec_heartbeat_flags(b));
    assert(ea.subrange(4, 8) =~= a.reader_id.value.spec_to_bytes());
    assert(eb.subrange(4, 8) =~= b.reader_id.value.spec_to_bytes());
    lemma_entity_id_bytes_injective(a.reader_id.value, b.reader_id.value, ea, eb, 4);
    assert(ea.subrange(8, 12) =~= a.writer_id.value.spec_to_bytes());
    assert(eb.subrange(8, 12) =~= b.writer_id.value.spec_to_bytes());
    lemma_entity_id_bytes_injective(a.writer_id.value, b.writer_id.value, ea, eb, 8);
    assert(ea.subrange(12, 20) =~= spec_sequence_number_to_bytes(a.first_sn.value));
    assert(eb.subrange(12, 20) =~= spec_sequence_number_to_bytes(b.first_sn.value));
    lemma_sequence_number_bytes_injective(a.first_sn.value, b.first_sn.value, ea, eb, 12);
    assert(ea.subrange(20, 28) =~= spec_sequence_number_to_bytes(a.last_sn.value));
    assert(eb.subrange(20, 28) =~= spec_sequence_number_to_bytes(b.last_sn.value));
    lemma_sequence_number_bytes_injective(a.last_sn.value, b.last_sn.value, ea, eb, 20);
    assert(ea.subrange(28, 32) =~= spec_i32_to_le_bytes(a.count.0));
    assert(eb.subrange(28, 32) =~= spec_i32_to_le_bytes(b.count.0));
    lemma_i32_bytes_injective(a.count.0, b.count.0, ea, eb, 28);
}

/// Distinct small flag values give distinct flag bytes.
proof fn lemma_flag_sum_injective()
    ensures
        forall|x: u8, y: u8, z: u8, p: u8, q: u8, r: u8|
            (x == 0 || x == 1) && (y == 0 || y == 2) && (z == 0 || z == 4) && (p == 0 || p == 1)
                && (q == 0 || q == 2) && (r == 0 || r == 4) && #[trigger] ((x + y + z) as u8)
                == #[trigger] ((p + q + r) as u8) ==> x == p && y == q && z == r,
{
    assert(forall|x: u8, y: u8, z: u8, p: u8, q: u8, r: u8|
        (x == 0 || x == 1) && (y == 0 || y == 2) && (z == 0 || z == 4) && (p == 0 || p == 1) && (q
            == 0 || q == 2) && (r == 0 || r == 4) && #[trigger] ((x + y + z) as u8)
            == #[trigger] ((p + q + r) as u8) ==> x == p && y == q && z == r) by (bit_vector);
}

/// Entity ids with the same four bytes at one offset agree.
proof fn lemma_entity_id_bytes_injective(a: EntityId, b: EntityId, ea: Seq<u8>, eb: Seq<u8>,
    off: int)
    requires
        ea == eb,
        0 <= off,
        off + 4 <= ea.len(),
        ea.subrange(off, off + 4) == a.spec_to_bytes(),
        eb.subrange(off, off + 4) == b.spec_to_bytes(),
    ensures
        a.entity_key@ == b.entity_key@,
        a.entity_kind == b.entity_kind,
{
    assert(a.spec_to_bytes() == b.spec_to_bytes());
    assert(forall|i: int| 0 <= i < 3 ==> a.entity_key@[i] == #[trigger] a.spec_to_bytes()[i]
        && b.entity_key@[i] == b.spec_to_bytes()[i]);
    assert(a.entity_key@ =~= b.entity_key@);
    assert(a.entity_kind == a.spec_to_bytes()[3] && b.entity_kind == b.spec_to_bytes()[3]);
}

/// Sequence numbers with the same eight bytes at one offset agree.
proof fn lemma_sequence_number_bytes_injective(
    a: SequenceNumber,
    b: SequenceNumber,
    ea: Seq<u8>,
    eb: Seq<u8>,
    off: int,
)
    requires
        ea == eb,
        0 <= off,
        off + 8 <= ea.len(),
        ea.subrange(off, off + 8) == spec_sequence_number_to_bytes(a),
        eb.subrange(off, off + 8) == spec_sequence_number_to_bytes(b),
    ensures
        a == b,
{
    vstd::bytes::lemma_auto_spec_u32_to_from_le_bytes();
    assert(spec_sequence_number_to_bytes(a) == spec_sequence_number_to_bytes(b));
    assert(spec_i32_to_le_bytes(a.high) =~= spec_sequence_number_to_bytes(a).subrange(0, 4));
    assert(spec_u32_to_le_bytes(a.low) =~= spec_sequence_number_to_bytes(a).subrange(4, 8));
    assert(spec_i32_to_le_bytes(b.high) =~= spec_sequence_number_to_bytes(b).subrange(0, 4));
    assert(spec_u32_to_le_bytes(b.low) =~= spec_sequence_number_to_bytes(b).subrange(4, 8));
    assert(spec_u32_to_le_bytes(a.high as u32).len() == 4);
    assert(spec_u32_to_le_bytes(b.high as u32).len() == 4);
    assert(spec_u32_to_le_bytes(a.low).len() == 4);
    assert(spec_u32_to_le_bytes(b.low).len() == 4);
    assert(spec_u32_from_le_bytes(spec_u32_to_le_bytes(a.high as u32)) == a.high as u32);
    assert(spec_u32_from_le_bytes(spec_u32_to_le_bytes(b.high as u32)) == b.high as u32);
    assert(a.high as u32 == b.high as u32);
    assert(spec_u32_from_le_bytes(spec_u32_to_le_bytes(a.low)) == a.low);
    assert(spec_u32_from_le_bytes(spec_u32_to_le_bytes(b.low)) == b.low);
    let ah = a.high;
    let bh = b.high;
    assert(ah == bh) by (bit_vector)
        requires
            ah as u32 == bh as u32,
    ;
    assert(a.low == b.low);
}

/// Signed 32-bit values with the same four bytes at one offset agree.
proof fn lemma_i32_bytes_injective(a: i32, b: i32, ea: Seq<u8>, eb: Seq<u8>, off: int)
    requires
        ea == eb,
        0 <= off,
        off + 4 <= ea.len(),
        ea.subrange(off, off + 4) == spec_i32_to_le_bytes(a),
        eb.subrange(off, off + 4) == spec_i32_to_le_bytes(b),
    ensures
        a == b,
{
    vstd::bytes::lemma_auto_spec_u32_to_from_le_bytes();
    assert(spec_u32_to_le_bytes(a as u32).len() == 4);
    assert(spec_u32_to_le_bytes(b as u32).len() == 4);
    assert(spec_u32_from_le_bytes(spec_u32_to_le_bytes(a as u32)) == a as u32);
    assert(spec_u32_from_le_bytes(spec_u32_to_le_bytes(b as u32)) == b as u32);
    assert(a as u32 == b as u32);
    let av = a;
    let bv = b;
    assert(av == bv) by (bit_vector)
        requires
            av as u32 == bv as u32,
    ;
}


/// The CDR framing of a serialized key: its length, then its bytes.
pub open spec fn spec_serialize_key(k: Seq<u8>) -> Seq<u8> {
    spec_u32_to_le_bytes(k.len() as u32) + k
}

/// Frame a serialized key for the wire.
pub fn serialize_key(key: &[u8]) -> (r: Vec<u8>)
    requires
        key@.len() < 0x1_0000_0000,
    ensures
        r@ == spec_serialize_key(key@),
{
    let mut buf: Vec<u8> = Vec::new();
    write_u32_le(&mut buf, key.len() as u32);
    let ghost pre = buf@;
    let mut i: usize = 0;
    while i < key.len()
        invariant
            0 <= i <= key@.len(),
            buf@ == pre + key@.take(i as int),
        decreases key@.len() - i,
    {
        buf.push(key[i]);
        i = i + 1;
        proof {
            assert(buf@ =~= pre + key@.take(i as int));
        }
    }
    proof {
        assert(buf@ =~= spec_serialize_key(key@));
    }
    buf
}

/// Read a framed key back; the frame must cover the whole buffer.
pub fn deserialize_key(buf: &[u8]) -> (r: Option<Vec<u8>>)
    ensures
        match r {
            Option::Some(k) => spec_serialize_key(k@) == buf@,
            Option::None => buf@.len() < 4 || 4 + spec_u32_from_le_bytes(buf@.subrange(0, 4))
                != buf@.len(),
        },
{
    let n = buf.len();
    if n < 4 {
        return Option::None;
    }
    let len = read_u32_le(buf, 0);
    if !(len as usize <= n - 4 && n - 4 <= len as usize) {
        return Option::None;
    }
    let mut k: Vec<u8> = Vec::new();
    let mut i: usize = 0;
    while i < n - 4
        invariant
            4 <= n <= buf@.len(),
            n == buf@.len(),
            0 <= i <= n - 4,
            k@.len() == i,
            forall|m: int| 0 <= m < i ==> #[trigger] k@[m] == buf@[4 + m],
        decreases n - 4 - i,
    {
        k.push(buf[4 + i]);
        i = i + 1;
    }
    proof {
        vstd::bytes::lemma_auto_spec_u32_to_from_le_bytes();
        assert(spec_u32_to_le_bytes(len).len() == 4);
        assert(spec_u32_to_le_bytes(len) == buf@.subrange(0, 4));
        assert(k@.len() as u32 == len);
        assert(spec_serialize_key(k@) =~= buf@);
    }
    Option::Some(k)
}

/// The key framing is injective: equal frames mean equal keys.
///
/// Together with the exact framing contracts this says that a key framed
/// and read back comes out unchanged.
pub proof fn lemma_key_round_trip(a: Seq<u8>, b: Seq<u8>)
    requires
        a.len() < 0x1_0000_0000,
        b.len() < 0x1_0000_0000,
        spec_serialize_key(a) == spec_serialize_key(b),
    ensures
        a == b,
{
    vstd::bytes::lemma_auto_spec_u32_to_from_le_bytes();
    assert(spec_u32_to_le_bytes(a.len() as u32).len() == 4);
    assert(spec_u32_to_le_bytes(b.len() as u32).len() == 4);
    assert(a =~= spec_serialize_key(a).subrange(4, spec_serialize_key(a).len() as int));
    assert(b =~= spec_serialize_key(b).subrange(4, spec_serialize_key(b).len() as int));
}

/// The handle bytes a serialized key folds to, over its first `n` bytes.
pub open spec fn spec_key_fold(k: Seq<u8>, n: int) -> Seq<u8>
    decreases n,
{
    if n <= 0 {
        Seq::new(16, |i: int| 0u8)
    } else {
        let prev = spec_key_fold(k, n - 1);
        prev.update((n - 1) % 16, (prev[(n - 1) % 16] ^ k[n - 1]) as u8)
    }
}

/// The instance handle of a serialized key: a pure function of its bytes.
///
/// A key of at most 16 bytes appears zero-padded; a longer one folds onto
/// the 16 positions.
pub open spec fn spec_instance_handle_of_key(k: Seq<u8>) -> Seq<u8> {
    spec_key_fold(k, k.len() as int)
}

/// Derive the instance handle of one serialized key.
///
/// Equal keys always give equal handles, on every machine and in every
/// process: the handle is a function of the key bytes alone.
pub fn get_instance_handle_from_key(serialized_key: &[u8]) -> (r: crate::types::InstanceHandle)
    ensures
        r.0@ == spec_instance_handle_of_key(serialized_key@),
{
    let mut h = [0u8; 16];
    proof {
        assert(h@ =~= spec_key_fold(serialized_key@, 0));
    }
    let mut i: usize = 0;
    while i < serialized_key.len()
        invariant
            0 <= i <= serialized_key@.len(),
            h@.len() == 16,
            h@ == spec_key_fold(serialized_key@, i as int),
        decreases serialized_key@.len() - i,
    {
        let p = i % 16;
        h[p] = h[p] ^ serialized_key[i];
        proof {
            assert(h@ =~= spec_key_fold(serialized_key@, i + 1));
        }
        i = i + 1;
    }
    crate::types::InstanceHandle(h)
}


/// Sequence-number sets with the same 44 bytes at one offset agree.
proof fn lemma_sequence_number_set_bytes_injective(
    a: SequenceNumberSet,
    b: SequenceNumberSet,
    ea: Seq<u8>,
    eb: Seq<u8>,
    off: int,
)
    requires
        ea == eb,
        0 <= off,
        off + 44 <= ea.len(),
        ea.subrange(off, off + 44) == spec_sequence_number_set_to_bytes(a),
        eb.subrange(off, off + 44) == spec_sequence_number_set_to_bytes(b),
    ensures
        a.base == b.base,
        a.bitmap@ == b.bitmap@,
{
    vstd::bytes::lemma_auto_spec_u32_to_from_le_bytes();
    let sa = spec_sequence_number_set_to_bytes(a);
    let sb = spec_sequence_number_set_to_bytes(b);
    assert(sa == sb);
    assert(sa.subrange(0, 8) =~= spec_sequence_number_to_bytes(a.base));
    assert(sb.subrange(0, 8) =~= spec_sequence_number_to_bytes(b.base));
    lemma_sequence_number_bytes_injective(a.base, b.base, sa, sb, 0);
    assert forall|w: int| 0 <= w < 8 implies a.bitmap@[w] == b.bitmap@[w] by {
        assert(sa.subrange(12 + 4 * w, 16 + 4 * w) =~= spec_i32_to_le_bytes(a.bitmap@[w]));
        assert(sb.subrange(12 + 4 * w, 16 + 4 * w) =~= spec_i32_to_le_bytes(b.bitmap@[w]));
        lemma_i32_bytes_injective(a.bitmap@[w], b.bitmap@[w], sa, sb, 12 + 4 * w);
    }
    assert(a.bitmap@ =~= b.bitmap@);
}

/// Encoding an acknack is injective: equal bytes mean equal submessages.
pub proof fn lemma_acknack_encoding_injective(a: AckNackSubmessage, b: AckNackSubmessage)
    requires
        spec_acknack_to_bytes(a) == spec_acknack_to_bytes(b),
    ensures
        a.endianness_flag == b.endianness_flag,
        a.final_flag == b.final_flag,
        a.reader_id.value.entity_key@ == b.reader_id.value.entity_key@,
        a.reader_id.value.entity_kind == b.reader_id.value.entity_kind,
        a.writer_id.value.entity_key@ == b.writer_id.value.entity_key@,
        a.writer_id.value.entity_kind == b.writer_id.value.entity_kind,
        a.reader_sn_state.base == b.reader_sn_state.base,
        a.reader_sn_state.bitmap@ == b.reader_sn_state.bitmap@,
        a.count == b.count,
{
    vstd::bytes::lemma_auto_spec_u32_to_from_le_bytes();
    let ea = spec_acknack_to_bytes(a);
    let eb = spec_acknack_to_bytes(b);
    assert(ea[1] == spec_acknack_flags(a) && eb[1] == spec_acknack_flags(b));
    assert(forall|x: u8, y: u8, p: u8, q: u8|
        (x == 0 || x == 1) && (y == 0 || y == 2) && (p == 0 || p == 1) && (q == 0 || q == 2)
            && #[trigger] ((x + y) as u8) == #[trigger] ((p + q) as u8) ==> x == p && y == q)
        by (bit_vector);
    assert(ea.subrange(4, 8) =~= a.reader_id.value.spec_to_bytes());
    assert(eb.subrange(4, 8) =~= b.reader_id.value.spec_to_bytes());
    lemma_entity_id_bytes_injective(a.reader_id.value, b.reader_id.value, ea, eb, 4);
    assert(ea.subrange(8, 12) =~= a.writer_id.value.spec_to_bytes());
    assert(eb.subrange(8, 12) =~= b.writer_id.value.spec_to_bytes());
    lemma_entity_id_bytes_injective(a.writer_id.value, b.writer_id.value, ea, eb, 8);
    assert(ea.subrange(12, 56) =~= spec_sequence_number_set_to_bytes(a.reader_sn_state));
    assert(eb.subrange(12, 56) =~= spec_sequence_number_set_to_bytes(b.reader_sn_state));
    lemma_sequence_number_set_bytes_injective(
        a.reader_sn_state,
        b.reader_sn_state,
        ea,
        eb,
        12,
    );
    assert(ea.subrange(56, 60) =~= spec_i32_to_le_bytes(a.count.0));
    assert(eb.subrange(56, 60) =~= spec_i32_to_le_bytes(b.count.0));
    lemma_i32_bytes_injective(a.count.0, b.count.0, ea, eb, 56);
}

/// Encoding the header is injective: equal bytes mean equal headers.
pub proof fn lemma_header_encoding_injective(a: RtpsMessageHeader, b: RtpsMessageHeader)
    requires
        spec_header_to_bytes(a) == spec_header_to_bytes(b),
    ensures
        a.version == b.version,
        a.vendor_id.0@ == b.vendor_id.0@,
        a.guid_prefix.0@ == b.guid_prefix.0@,
{
    let ea = spec_header_to_bytes(a);
    let eb = spec_header_to_bytes(b);
    assert(a.version.major == ea[4] && a.version.minor == ea[5]);
    assert(b.version.major == eb[4] && b.version.minor == eb[5]);
    assert forall|i: int| 0 <= i < 2 implies a.vendor_id.0@[i] == b.vendor_id.0@[i] by {
        assert(a.vendor_id.0@[i] == ea[6 + i]);
        assert(b.vendor_id.0@[i] == eb[6 + i]);
    }
    assert(a.vendor_id.0@ =~= b.vendor_id.0@);
    assert forall|i: int| 0 <= i < 12 implies a.guid_prefix.0@[i] == b.guid_prefix.0@[i] by {
        assert(a.guid_prefix.0@[i] == ea[8 + i]);
        assert(b.guid_prefix.0@[i] == eb[8 + i]);
    }
    assert(a.guid_prefix.0@ =~= b.guid_prefix.0@);
}


/// Lay a destination submessage out as its 16 wire bytes.
pub fn encode_info_destination(s: &InfoDestinationSubmessage) -> (r: Vec<u8>)
    ensures
        r@ == spec_info_destination_to_bytes(*s),
{
    let mut buf: Vec<u8> = Vec::new();
    buf.push(SUBMESSAGE_KIND_INFO_DST);
    buf.push(if s.endianness_flag {
        1
    } else {
        0
    });
    buf.push(12);
    buf.push(0);
    let ghost pre = buf@;
    let mut i: usize = 0;
    while i < 12
        invariant
            0 <= i <= 12,
            buf@ == pre + s.guid_prefix.0@.take(i as int),
        decreases 12 - i,
    {
        buf.push(s.guid_prefix.0[i]);
        i = i + 1;
        proof {
            assert(buf@ =~= pre + s.guid_prefix.0@.take(i as int));
        }
    }
    proof {
        assert(buf@ =~= spec_info_destination_to_bytes(*s));
    }
    buf
}

/// Read a destination submessage back from its 16 wire bytes.
pub fn decode_info_destination(buf: &[u8], pos: usize) -> (r: Option<InfoDestinationSubmessage>)
    requires
        pos + 16 <= buf@.len(),
    ensures
        r matches Option::Some(s) ==> spec_info_destination_to_bytes(s) == buf@.subrange(
            pos as int,
            pos + 16,
        ),
        r is None <==> !(buf@[pos as int] == SUBMESSAGE_KIND_INFO_DST && buf@[pos + 2] == 12
            && buf@[pos + 3] == 0 && buf@[pos + 1] < 2),
{
    let n = buf.len();
    if !(buf[pos] == SUBMESSAGE_KIND_INFO_DST && buf[pos + 2] == 12 && buf[pos + 3] == 0) {
        return Option::None;
    }
    let flags = buf[pos + 1];
    if flags >= 2 {
        return Option::None;
    }
    let mut prefix = [0u8; 12];
    let mut i: usize = 0;
    while i < 12
        invariant
            0 <= i <= 12,
            pos + 16 <= buf@.len(),
            pos + 16 <= n,
            n == buf@.len(),
            prefix@.len() == 12,
            forall|k: int| 0 <= k < i ==> prefix@[k] == buf@[pos + 4 + k],
        decreases 12 - i,
    {
        prefix[i] = buf[pos + 4 + i];
        i = i + 1;
    }
    let s = InfoDestinationSubmessage {
        endianness_flag: flags == 1,
        guid_prefix: GuidPrefix(prefix),
    };
    proof {
        assert(spec_info_destination_to_bytes(s) =~= buf@.subrange(pos as int, pos + 16));
    }
    Option::Some(s)
}

} // verus!

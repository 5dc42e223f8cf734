//! Core RTPS identifier and value types: GUID prefixes, entity ids, GUIDs,
//! sequence numbers, locators and the small wrapped wire primitives.

use vstd::prelude::*;

verus! {

/// A 64-bit sequence number stored as the RTPS wire pair (high, low).
///
/// The mathematical value is `high * 2^32 + low`.
#[derive(Clone, Copy, Debug, PartialEq, Eq, Structural)]
pub struct SequenceNumber {
    pub high: i32,
    pub low: u32,
}

impl SequenceNumber {
    /// The mathematical value represented by this pair.
    pub open spec fn spec_value(self) -> int {
        self.high * 0x1_0000_0000 + self.low
    }

    /// Rebuild the pair from a 64-bit value.
    pub fn from_i64(value: i64) -> (r: SequenceNumber)
        ensures
            r.spec_value() == value,
    {
        proof {
            lemma_sequence_number_split(value);
        }
        SequenceNumber { high: (value >> 32) as i32, low: value as u32 }
    }

    /// The 64-bit value of the pair.
    pub fn as_i64(&self) -> (r: i64)
        ensures
            r == self.spec_value(),
    {
        (self.high as i64) * 0x1_0000_0000 + (self.low as i64)
    }
}

/// Splitting a 64-bit value into its high and low words loses nothing.
proof fn lemma_sequence_number_split(value: i64)
    ensures
        ((value >> 32) as i32) * 0x1_0000_0000 + (value as u32) == value,
{
    assert(((value >> 32) as i32) * 0x1_0000_0000 + (value as u32) == value) by (bit_vector);
}

/// The sentinel for a sequence number that is not known.
pub fn sequence_number_unknown() -> (r: SequenceNumber)
    ensures
        r == (SequenceNumber { high: -0x8000_0000i32, low: 0xffff_ffff }),
{
    SequenceNumber { high: -0x8000_0000, low: 0xffff_ffff }
}

/// Element-wise equality of two byte arrays.
pub fn bytes_eq<const N: usize>(a: &[u8; N], b: &[u8; N]) -> (r: bool)
    ensures
        r <==> a@ == b@,
{
    let mut i: usize = 0;
    while i < N
        invariant
            0 <= i <= N,
            forall|j: int| 0 <= j < i ==> a@[j] == b@[j],
        decreases N - i,
    {
        if a[i] != b[i] {
            assert(a@ != b@);
            return false;
        }
        i = i + 1;
    }
    assert(a@ =~= b@);
    true
}

/// The 12-byte prefix shared by every entity of one participant.
#[derive(Clone, Copy, Debug, Eq)]
pub struct GuidPrefix(pub [u8; 12]);

impl PartialEq for GuidPrefix {
    fn eq(&self, other: &GuidPrefix) -> (r: bool) {
        bytes_eq(&self.0, &other.0)
    }
}

impl vstd::std_specs::cmp::PartialEqSpecImpl for GuidPrefix {
    open spec fn obeys_eq_spec() -> bool {
        true
    }

    open spec fn eq_spec(&self, other: &GuidPrefix) -> bool {
        self.0@ == other.0@
    }
}

/// The prefix of a participant nobody knows.
pub fn guidprefix_unknown() -> (r: GuidPrefix)
    ensures
        r.0@ == Seq::new(12, |i: int| 0u8),
{
    let r = GuidPrefix([0; 12]);
    assert(r.0@ =~= Seq::new(12, |i: int| 0u8));
    r
}

/// Entity kind byte: built-in participant.
pub const BUILT_IN_PARTICIPANT: u8 = 0xc1;

/// Entity kind byte: built-in writer of a keyed topic.
pub const BUILT_IN_WRITER_WITH_KEY: u8 = 0xc2;

/// Entity kind byte: built-in reader of a keyed topic.
pub const BUILT_IN_READER_WITH_KEY: u8 = 0xc7;

/// Entity kind byte: built-in writer group.
pub const BUILT_IN_WRITER_GROUP: u8 = 0xc8;

/// Entity kind byte: built-in reader group.
pub const BUILT_IN_READER_GROUP: u8 = 0xc9;

/// Entity kind byte: built-in topic.
pub const BUILT_IN_TOPIC: u8 = 0xcc;

/// Entity kind byte: user-defined writer of a keyed topic.
pub const USER_DEFINED_WRITER_WITH_KEY: u8 = 0x02;

/// Entity kind byte: user-defined reader of a keyed topic.
pub const USER_DEFINED_READER_WITH_KEY: u8 = 0x07;

/// Entity kind byte: user-defined writer group.
pub const USER_DEFINED_WRITER_GROUP: u8 = 0x08;

/// Entity kind byte: user-defined reader group.
pub const USER_DEFINED_READER_GROUP: u8 = 0x09;

/// Entity kind byte: user-defined topic.
pub const USER_DEFINED_TOPIC: u8 = 0x0c;

/// The 4-byte entity id inside one participant: a 3-byte key and a kind byte.
#[derive(Clone, Copy, Debug, Eq)]
pub struct EntityId {
    pub entity_key: [u8; 3],
    pub entity_kind: u8,
}

impl PartialEq for EntityId {
    fn eq(&self, other: &EntityId) -> (r: bool) {
        bytes_eq(&self.entity_key, &other.entity_key) && self.entity_kind == other.entity_kind
    }
}

impl vstd::std_specs::cmp::PartialEqSpecImpl for EntityId {
    open spec fn obeys_eq_spec() -> bool {
        true
    }

    open spec fn eq_spec(&self, other: &EntityId) -> bool {
        self.entity_key@ == other.entity_key@ && self.entity_kind == other.entity_kind
    }
}

impl EntityId {
    /// The wire form: the key bytes followed by the kind byte.
    pub open spec fn spec_to_bytes(self) -> Seq<u8> {
        seq![self.entity_key[0], self.entity_key[1], self.entity_key[2], self.entity_kind]
    }

    /// Lay the entity id out as its four wire bytes.
    pub fn to_bytes(self) -> (r: [u8; 4])
        ensures
            r@ == self.spec_to_bytes(),
    {
        let r = [self.entity_key[0], self.entity_key[1], self.entity_key[2], self.entity_kind];
        assert(r@ =~= self.spec_to_bytes());
        r
    }

    /// Read an entity id back from its four wire bytes.
    pub fn from_bytes(value: &[u8; 4]) -> (r: EntityId)
        ensures
            r.spec_to_bytes() == value@,
            r == (EntityId {
                entity_key: [value[0], value[1], value[2]],
                entity_kind: value[3],
            }),
    {
        let r = EntityId { entity_key: [value[0], value[1], value[2]], entity_kind: value[3] };
        assert(r.spec_to_bytes() =~= value@);
        r
    }
}

/// The id of the entity nobody knows.
pub fn entityid_unknown() -> (r: EntityId)
    ensures
        r == (EntityId { entity_key: [0, 0, 0], entity_kind: 0 }),
{
    EntityId { entity_key: [0, 0, 0], entity_kind: 0 }
}

/// The fixed id of the participant itself.
pub fn entityid_participant() -> (r: EntityId)
    ensures
        r == (EntityId { entity_key: [0, 0, 0x01], entity_kind: BUILT_IN_PARTICIPANT }),
{
    EntityId { entity_key: [0, 0, 0x01], entity_kind: BUILT_IN_PARTICIPANT }
}

/// The fixed id of the participant-discovery announcer.
pub fn entityid_spdp_builtin_participant_writer() -> (r: EntityId)
    ensures
        r == (EntityId { entity_key: [0x00, 0x01, 0x00], entity_kind: BUILT_IN_WRITER_WITH_KEY }),
{
    EntityId { entity_key: [0x00, 0x01, 0x00], entity_kind: BUILT_IN_WRITER_WITH_KEY }
}

/// The fixed id of the participant-discovery detector.
pub fn entityid_spdp_builtin_participant_reader() -> (r: EntityId)
    ensures
        r == (EntityId { entity_key: [0x00, 0x01, 0x00], entity_kind: BUILT_IN_READER_WITH_KEY }),
{
    EntityId { entity_key: [0x00, 0x01, 0x00], entity_kind: BUILT_IN_READER_WITH_KEY }
}

/// The fixed id of the topic-discovery announcer.
pub fn entityid_sedp_builtin_topics_announcer() -> (r: EntityId)
    ensures
        r == (EntityId { entity_key: [0, 0, 0x02], entity_kind: BUILT_IN_WRITER_WITH_KEY }),
{
    EntityId { entity_key: [0, 0, 0x02], entity_kind: BUILT_IN_WRITER_WITH_KEY }
}

/// The fixed id of the topic-discovery detector.
pub fn entityid_sedp_builtin_topics_detector() -> (r: EntityId)
    ensures
        r == (EntityId { entity_key: [0, 0, 0x02], entity_kind: BUILT_IN_READER_WITH_KEY }),
{
    EntityId { entity_key: [0, 0, 0x02], entity_kind: BUILT_IN_READER_WITH_KEY }
}

/// The fixed id of the publication-discovery announcer.
pub fn entityid_sedp_builtin_publications_announcer() -> (r: EntityId)
    ensures
        r == (EntityId { entity_key: [0, 0, 0x03], entity_kind: BUILT_IN_WRITER_WITH_KEY }),
{
    EntityId { entity_key: [0, 0, 0x03], entity_kind: BUILT_IN_WRITER_WITH_KEY }
}

/// The fixed id of the publication-discovery detector.
pub fn entityid_sedp_builtin_publications_detector() -> (r: EntityId)
    ensures
        r == (EntityId { entity_key: [0, 0, 0x03], entity_kind: BUILT_IN_READER_WITH_KEY }),
{
    EntityId { entity_key: [0, 0, 0x03], entity_kind: BUILT_IN_READER_WITH_KEY }
}

/// The fixed id of the subscription-discovery announcer.
pub fn entityid_sedp_builtin_subscriptions_announcer() -> (r: EntityId)
    ensures
        r == (EntityId { entity_key: [0, 0, 0x04], entity_kind: BUILT_IN_WRITER_WITH_KEY }),
{
    EntityId { entity_key: [0, 0, 0x04], entity_kind: BUILT_IN_WRITER_WITH_KEY }
}

/// The fixed id of the subscription-discovery detector.
pub fn entityid_sedp_builtin_subscriptions_detector() -> (r: EntityId)
    ensures
        r == (EntityId { entity_key: [0, 0, 0x04], entity_kind: BUILT_IN_READER_WITH_KEY }),
{
    EntityId { entity_key: [0, 0, 0x04], entity_kind: BUILT_IN_READER_WITH_KEY }
}

/// A 16-byte globally unique identifier: a participant prefix and an entity id.
#[derive(Clone, Copy, Debug, Eq)]
pub struct GUID {
    pub prefix: GuidPrefix,
    pub entity_id: EntityId,
}

impl PartialEq for GUID {
    fn eq(&self, other: &GUID) -> (r: bool) {
        self.prefix == other.prefix && self.entity_id == other.entity_id
    }
}

impl vstd::std_specs::cmp::PartialEqSpecImpl for GUID {
    open spec fn obeys_eq_spec() -> bool {
        true
    }

    open spec fn eq_spec(&self, other: &GUID) -> bool {
        self.prefix.0@ == other.prefix.0@ && self.entity_id.entity_key@
            == other.entity_id.entity_key@ && self.entity_id.entity_kind
            == other.entity_id.entity_kind
    }
}

impl GUID {
    /// Pair a prefix with an entity id.
    pub fn new(prefix: GuidPrefix, entity_id: EntityId) -> (r: GUID)
        ensures
            r == (GUID { prefix, entity_id }),
    {
        GUID { prefix, entity_id }
    }

    /// The participant part of the identifier.
    pub fn prefix(&self) -> (r: &GuidPrefix)
        ensures
            r == self.prefix,
    {
        &self.prefix
    }

    /// The entity part of the identifier.
    pub fn entity_id(&self) -> (r: &EntityId)
        ensures
            r == self.entity_id,
    {
        &self.entity_id
    }

    /// The 16 wire bytes of the identifier: prefix first, then entity id.
    pub open spec fn spec_to_bytes(self) -> Seq<u8> {
        self.prefix.0@ + self.entity_id.spec_to_bytes()
    }

    /// Lay the identifier out as its 16 wire bytes.
    pub fn to_bytes(self) -> (r: [u8; 16])
        ensures
            r@ == self.spec_to_bytes(),
    {
        let p = self.prefix.0;
        let e = self.entity_id.to_bytes();
        let r = [
            p[0], p[1], p[2], p[3], p[4], p[5], p[6], p[7], p[8], p[9], p[10], p[11],
            e[0], e[1], e[2], e[3],
        ];
        assert(r@ =~= self.spec_to_bytes());
        r
    }
}

/// The identifier nobody knows.
pub fn guid_unknown() -> (r: GUID)
    ensures
        r.prefix.0@ == Seq::new(12, |i: int| 0u8),
        r.entity_id == (EntityId { entity_key: [0, 0, 0], entity_kind: 0 }),
{
    GUID { prefix: guidprefix_unknown(), entity_id: entityid_unknown() }
}

/// A 16-byte handle identifying one entity or one instance.
#[derive(Clone, Copy, Debug, Eq)]
pub struct InstanceHandle(pub [u8; 16]);

impl PartialEq for InstanceHandle {
    fn eq(&self, other: &InstanceHandle) -> (r: bool) {
        bytes_eq(&self.0, &other.0)
    }
}

impl vstd::std_specs::cmp::PartialEqSpecImpl for InstanceHandle {
    open spec fn obeys_eq_spec() -> bool {
        true
    }

    open spec fn eq_spec(&self, other: &InstanceHandle) -> bool {
        self.0@ == other.0@
    }
}

impl InstanceHandle {
    /// Wrap 16 bytes as a handle.
    pub fn new(bytes: [u8; 16]) -> (r: InstanceHandle)
        ensures
            r.0 == bytes,
    {
        InstanceHandle(bytes)
    }

    /// The handle of an entity: the bytes of its identifier.
    pub fn from_guid(guid: &GUID) -> (r: InstanceHandle)
        ensures
            r.0@ == guid.spec_to_bytes(),
    {
        InstanceHandle(guid.to_bytes())
    }
}

/// Two distinct identifiers give two distinct handles.
pub proof fn lemma_guid_handle_injective(a: GUID, b: GUID)
    requires
        a != b,
    ensures
        a.spec_to_bytes() != b.spec_to_bytes(),
{
    if a.spec_to_bytes() == b.spec_to_bytes() {
        assert(a.prefix.0@ =~= Seq::new(12, |i: int| a.spec_to_bytes()[i]));
        assert(b.prefix.0@ =~= Seq::new(12, |i: int| b.spec_to_bytes()[i]));
        assert(a.prefix.0 =~= b.prefix.0);
        assert(a.entity_id.entity_key =~= b.entity_id.entity_key) by {
            assert(forall|i: int| 0 <= i < 3
                ==> a.entity_id.entity_key[i] == a.spec_to_bytes()[12 + i]
                    && b.entity_id.entity_key[i] == b.spec_to_bytes()[12 + i]);
        }
        assert(a.entity_id.entity_kind == a.spec_to_bytes()[15]);
        assert(b.entity_id.entity_kind == b.spec_to_bytes()[15]);
    }
}


/// The marker for this UDP platform-specific mapping of the protocol.
pub struct RtpsUdpPsm;

/// A 16-bit unsigned submessage element.
#[derive(Clone, Copy, Debug, PartialEq, Eq, PartialOrd, Ord, Structural)]
pub struct UShort(pub u16);

impl UShort {
    /// The wrapped value.
    pub fn value(&self) -> (r: &u16)
        ensures
            r == self.0,
    {
        &self.0
    }
}

/// A 32-bit signed submessage element.
#[derive(Clone, Copy, Debug, PartialEq, Eq, PartialOrd, Ord, Structural)]
pub struct Long(pub i32);

impl Long {
    /// The wrapped value.
    pub fn value(&self) -> (r: &i32)
        ensures
            r == self.0,
    {
        &self.0
    }

    /// Read the value from its four little-endian wire bytes.
    pub fn from_bytes(value: [u8; 4]) -> (r: Long)
        ensures
            r.0 == vstd::bytes::spec_u32_from_le_bytes(value@) as i32,
    {
        Long(vstd::bytes::u32_from_le_bytes(value.as_slice()) as i32)
    }

    /// Lay the value out as its four little-endian wire bytes.
    pub fn to_bytes(self) -> (r: Vec<u8>)
        ensures
            r@ == vstd::bytes::spec_u32_to_le_bytes(self.0 as u32),
    {
        vstd::bytes::u32_to_le_bytes(self.0 as u32)
    }
}

/// A 32-bit unsigned submessage element.
#[derive(Clone, Copy, Debug, PartialEq, Eq, PartialOrd, Ord, Structural)]
pub struct ULong(pub u32);

impl ULong {
    /// The wrapped value.
    pub fn value(&self) -> (r: &u32)
        ensures
            r == self.0,
    {
        &self.0
    }

    /// Read the value from its four little-endian wire bytes.
    pub fn from_bytes(value: [u8; 4]) -> (r: ULong)
        ensures
            r.0 == vstd::bytes::spec_u32_from_le_bytes(value@),
    {
        ULong(vstd::bytes::u32_from_le_bytes(value.as_slice()))
    }

    /// Lay the value out as its four little-endian wire bytes.
    pub fn to_bytes(self) -> (r: Vec<u8>)
        ensures
            r@ == vstd::bytes::spec_u32_to_le_bytes(self.0),
    {
        vstd::bytes::u32_to_le_bytes(self.0)
    }
}

/// Locator kind value: an invalid locator.
pub const LOCATOR_KIND_INVALID: i32 = -1;

/// Locator kind value: reserved.
pub const LOCATOR_KIND_RESERVED: i32 = 0;

/// Locator kind value: a UDP over IPv4 address.
pub const LOCATOR_KIND_UDPV4: i32 = 1;

/// Locator kind value: a UDP over IPv6 address.
pub const LOCATOR_KIND_UDPV6: i32 = 2;

/// A transport address: kind, port and a 16-byte address.
#[derive(Clone, Copy, Debug, Eq)]
pub struct Locator {
    pub kind: Long,
    pub port: ULong,
    pub address: [u8; 16],
}

impl PartialEq for Locator {
    fn eq(&self, other: &Locator) -> (r: bool) {
        self.kind.0 == other.kind.0 && self.port.0 == other.port.0
            && bytes_eq(&self.address, &other.address)
    }
}

impl vstd::std_specs::cmp::PartialEqSpecImpl for Locator {
    open spec fn obeys_eq_spec() -> bool {
        true
    }

    open spec fn eq_spec(&self, other: &Locator) -> bool {
        self.kind == other.kind && self.port == other.port && self.address@ == other.address@
    }
}

impl Locator {
    /// The locator kind.
    pub fn kind(&self) -> (r: &Long)
        ensures
            r == self.kind,
    {
        &self.kind
    }

    /// The locator port.
    pub fn port(&self) -> (r: &ULong)
        ensures
            r == self.port,
    {
        &self.port
    }

    /// The 16-byte locator address.
    pub fn address(&self) -> (r: &[u8; 16])
        ensures
            r == self.address,
    {
        &self.address
    }
}

/// The locator that addresses nothing.
pub fn locator_invalid() -> (r: Locator)
    ensures
        r.kind.0 == LOCATOR_KIND_INVALID,
        r.port.0 == 0,
        r.address@ == Seq::new(16, |i: int| 0u8),
{
    let r = Locator { kind: Long(LOCATOR_KIND_INVALID), port: ULong(0), address: [0; 16] };
    assert(r.address@ =~= Seq::new(16, |i: int| 0u8));
    r
}

/// A version of the wire protocol.
#[derive(Clone, Copy, Debug, PartialEq, Eq, Structural)]
pub struct ProtocolVersion {
    pub major: u8,
    pub minor: u8,
}

/// The protocol version this library speaks.
pub fn protocolversion_2_4() -> (r: ProtocolVersion)
    ensures
        r == (ProtocolVersion { major: 2, minor: 4 }),
{
    ProtocolVersion { major: 2, minor: 4 }
}

/// The 2-byte vendor identifier.
#[derive(Clone, Copy, Debug, Eq)]
pub struct VendorId(pub [u8; 2]);

impl PartialEq for VendorId {
    fn eq(&self, other: &VendorId) -> (r: bool) {
        bytes_eq(&self.0, &other.0)
    }
}

impl vstd::std_specs::cmp::PartialEqSpecImpl for VendorId {
    open spec fn obeys_eq_spec() -> bool {
        true
    }

    open spec fn eq_spec(&self, other: &VendorId) -> bool {
        self.0@ == other.0@
    }
}

/// The vendor nobody knows.
pub fn vendor_id_unknown() -> (r: VendorId)
    ensures
        r.0@ == seq![0u8, 0u8],
{
    let r = VendorId([0, 0]);
    assert(r.0@ =~= seq![0u8, 0u8]);
    r
}

/// A wire timestamp: seconds and a binary fraction of a second.
#[derive(Clone, Copy, Debug, PartialEq, Eq, Structural)]
pub struct Time {
    pub seconds: u32,
    pub fraction: u32,
}

/// The zero timestamp.
pub fn time_zero() -> (r: Time)
    ensures
        r == (Time { seconds: 0, fraction: 0 }),
{
    Time { seconds: 0, fraction: 0 }
}

/// The timestamp that carries no information.
pub fn time_invalid() -> (r: Time)
    ensures
        r == (Time { seconds: 0xffff_ffff, fraction: 0xffff_ffff }),
{
    Time { seconds: 0xffff_ffff, fraction: 0xffff_ffff }
}

/// A signed duration: seconds and a binary fraction of a second.
#[derive(Clone, Copy, Debug, PartialEq, Eq, Structural)]
pub struct Duration {
    pub seconds: i32,
    pub fraction: u32,
}

/// A change counter carried in heartbeat and acknack submessages.
#[derive(Clone, Copy, Debug, PartialEq, Eq, Structural)]
pub struct Count(pub i32);

impl Count {
    /// The wrapped value.
    pub fn value(&self) -> (r: &i32)
        ensures
            r == self.0,
    {
        &self.0
    }
}

/// The number of one fragment of a large payload, counting from one.
#[derive(Clone, Copy, Debug, PartialEq, Eq, PartialOrd, Structural)]
pub struct FragmentNumber(pub u32);

/// A set of fragment numbers.
pub struct FragmentNumberSet(pub Vec<FragmentNumber>);

/// A serialized payload owned by a cache change.
pub struct Data(pub Vec<u8>);

impl Data {
    /// The payload bytes.
    pub fn value(&self) -> (r: &Vec<u8>)
        ensures
            r == self.0,
    {
        &self.0
    }
}

/// A serialized payload borrowed from a received submessage.
pub struct SerializedData<'a>(pub &'a [u8]);

impl<'a> SerializedData<'a> {
    /// The payload bytes.
    pub fn value(&self) -> (r: &[u8])
        ensures
            r@ == self.0@,
    {
        self.0
    }
}

/// The identifier of one parameter in a parameter list.
pub type ParameterId = i16;

/// One inline-QoS or discovery parameter: id, length and value bytes.
#[derive(Clone, Debug)]
pub struct Parameter {
    pub parameter_id: ParameterId,
    pub length: i16,
    pub value: Vec<u8>,
}

impl Parameter {
    /// The parameter identifier.
    pub fn parameter_id(&self) -> (r: ParameterId)
        ensures
            r == self.parameter_id,
    {
        self.parameter_id
    }

    /// The declared length of the value.
    pub fn length(&self) -> (r: i16)
        ensures
            r == self.length,
    {
        self.length
    }

    /// The value bytes.
    pub fn value(&self) -> (r: &[u8])
        ensures
            r@ == self.value@,
    {
        self.value.as_slice()
    }
}

/// A list of parameters, terminated on the wire by a sentinel.
pub struct ParameterList {
    pub parameter: Vec<Parameter>,
}

impl ParameterList {
    /// The parameters in order.
    pub fn parameter(&self) -> (r: &[Parameter])
        ensures
            r@ == self.parameter@,
    {
        self.parameter.as_slice()
    }
}

/// A list of transport addresses.
pub struct LocatorList(pub Vec<Locator>);

impl LocatorList {
    /// The addresses in order.
    pub fn value(&self) -> (r: &[Locator])
        ensures
            r@ == self.0@,
    {
        self.0.as_slice()
    }
}

/// What a cache change says about its instance.
#[derive(Clone, Copy, Debug, PartialEq, Eq, Structural)]
pub enum ChangeKind {
    /// The instance has a new value.
    Alive,
    /// The instance was disposed by a writer.
    NotAliveDisposed,
    /// The instance was unregistered by a writer.
    NotAliveUnregistered,
}

/// Whether a topic carries a key.
#[derive(Clone, Copy, Debug, PartialEq, Eq, Structural)]
pub enum TopicKind {
    /// Samples of the topic carry a key.
    WithKey,
    /// Samples of the topic carry no key.
    NoKey,
}

/// The delivery contract of an endpoint.
#[derive(Clone, Copy, Debug, PartialEq, Eq, Structural)]
pub enum ReliabilityKind {
    /// Samples may be lost.
    BestEffort,
    /// Samples are retransmitted until acknowledged.
    Reliable,
}

} // verus!

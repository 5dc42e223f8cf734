//! The data types the discovery protocols exchange: participant, writer,
//! reader and topic announcements, and the builtin-endpoint bitmask.

use vstd::prelude::*;

use crate::qos::{DataReaderQos, DataWriterQos, DomainParticipantQos, TopicQos, DurationKind};
use crate::types::{GuidPrefix, InstanceHandle, Locator, ProtocolVersion, VendorId, GUID};

verus! {

/// Bit of the builtin-endpoint mask: participant announcer.
pub const BUILTIN_ENDPOINT_PARTICIPANT_ANNOUNCER: u32 = 0x0000_0001;

/// Bit of the builtin-endpoint mask: participant detector.
pub const BUILTIN_ENDPOINT_PARTICIPANT_DETECTOR: u32 = 0x0000_0002;

/// Bit of the builtin-endpoint mask: publications announcer.
pub const BUILTIN_ENDPOINT_PUBLICATIONS_ANNOUNCER: u32 = 0x0000_0004;

/// Bit of the builtin-endpoint mask: publications detector.
pub const BUILTIN_ENDPOINT_PUBLICATIONS_DETECTOR: u32 = 0x0000_0008;

/// Bit of the builtin-endpoint mask: subscriptions announcer.
pub const BUILTIN_ENDPOINT_SUBSCRIPTIONS_ANNOUNCER: u32 = 0x0000_0010;

/// Bit of the builtin-endpoint mask: subscriptions detector.
pub const BUILTIN_ENDPOINT_SUBSCRIPTIONS_DETECTOR: u32 = 0x0000_0020;

/// Bit of the builtin-endpoint mask: topics announcer.
pub const BUILTIN_ENDPOINT_TOPICS_ANNOUNCER: u32 = 0x0800_0000;

/// Bit of the builtin-endpoint mask: topics detector.
pub const BUILTIN_ENDPOINT_TOPICS_DETECTOR: u32 = 0x1000_0000;

/// The set of builtin endpoints a remote participant offers.
#[derive(Clone, Copy, Debug, PartialEq, Eq, Structural)]
pub struct BuiltinEndpointSet(pub u32);

impl BuiltinEndpointSet {
    /// Whether the mask offers this endpoint.
    pub fn has(&self, endpoint: u32) -> (r: bool)
        ensures
            r == (self.0 & endpoint == endpoint),
    {
        self.0 & endpoint == endpoint
    }
}

/// The endpoint mask every participant of this library announces.
pub open spec fn spec_default_builtin_endpoints() -> BuiltinEndpointSet {
    BuiltinEndpointSet(
        BUILTIN_ENDPOINT_PARTICIPANT_ANNOUNCER | BUILTIN_ENDPOINT_PARTICIPANT_DETECTOR
            | BUILTIN_ENDPOINT_PUBLICATIONS_ANNOUNCER | BUILTIN_ENDPOINT_PUBLICATIONS_DETECTOR
            | BUILTIN_ENDPOINT_SUBSCRIPTIONS_ANNOUNCER | BUILTIN_ENDPOINT_SUBSCRIPTIONS_DETECTOR
            | BUILTIN_ENDPOINT_TOPICS_ANNOUNCER | BUILTIN_ENDPOINT_TOPICS_DETECTOR,
    )
}

impl Default for BuiltinEndpointSet {
    /// The endpoints every participant of this library offers.
    fn default() -> (r: BuiltinEndpointSet)
        ensures
            r == spec_default_builtin_endpoints(),
    {
        BuiltinEndpointSet(
            BUILTIN_ENDPOINT_PARTICIPANT_ANNOUNCER | BUILTIN_ENDPOINT_PARTICIPANT_DETECTOR
                | BUILTIN_ENDPOINT_PUBLICATIONS_ANNOUNCER | BUILTIN_ENDPOINT_PUBLICATIONS_DETECTOR
                | BUILTIN_ENDPOINT_SUBSCRIPTIONS_ANNOUNCER
                | BUILTIN_ENDPOINT_SUBSCRIPTIONS_DETECTOR | BUILTIN_ENDPOINT_TOPICS_ANNOUNCER
                | BUILTIN_ENDPOINT_TOPICS_DETECTOR,
        )
    }
}

/// The wire-level identity and reachability of a remote participant.
pub struct ParticipantProxy {
    pub domain_id: Option<i32>,
    pub domain_tag: String,
    pub protocol_version: ProtocolVersion,
    pub guid_prefix: GuidPrefix,
    pub vendor_id: VendorId,
    pub expects_inline_qos: bool,
    pub metatraffic_unicast_locator_list: Vec<Locator>,
    pub metatraffic_multicast_locator_list: Vec<Locator>,
    pub default_unicast_locator_list: Vec<Locator>,
    pub default_multicast_locator_list: Vec<Locator>,
    pub available_builtin_endpoints: BuiltinEndpointSet,
    pub manual_liveliness_count: i32,
}

/// What a participant announces about itself.
pub struct ParticipantBuiltinTopicData {
    pub key: InstanceHandle,
    pub qos: DomainParticipantQos,
}

/// One participant announcement: application-level data, wire proxy and the
/// lease within which it must be refreshed.
pub struct SpdpDiscoveredParticipantData {
    pub dds_participant_data: ParticipantBuiltinTopicData,
    pub participant_proxy: ParticipantProxy,
    pub lease_duration: DurationKind,
}

impl SpdpDiscoveredParticipantData {
    /// The application-level participant data.
    pub fn dds_participant_data(&self) -> (r: &ParticipantBuiltinTopicData)
        ensures
            r == self.dds_participant_data,
    {
        &self.dds_participant_data
    }

    /// The wire proxy of the participant.
    pub fn participant_proxy(&self) -> (r: &ParticipantProxy)
        ensures
            r == self.participant_proxy,
    {
        &self.participant_proxy
    }
}

/// What a writer announces about itself.
pub struct PublicationBuiltinTopicData {
    pub key: InstanceHandle,
    pub participant_key: InstanceHandle,
    pub topic_name: String,
    pub data_type_name: String,
    pub qos: DataWriterQos,
}

/// One writer announcement: its identity, reachability and offered policies.
pub struct DiscoveredWriterData {
    pub remote_writer_guid: GUID,
    pub unicast_locator_list: Vec<Locator>,
    pub multicast_locator_list: Vec<Locator>,
    pub dds_publication_data: PublicationBuiltinTopicData,
}

/// What a reader announces about itself.
pub struct SubscriptionBuiltinTopicData {
    pub key: InstanceHandle,
    pub participant_key: InstanceHandle,
    pub topic_name: String,
    pub data_type_name: String,
    pub qos: DataReaderQos,
}

/// One reader announcement: its identity, reachability and requested
/// policies.
pub struct DiscoveredReaderData {
    pub remote_reader_guid: GUID,
    pub expects_inline_qos: bool,
    pub unicast_locator_list: Vec<Locator>,
    pub multicast_locator_list: Vec<Locator>,
    pub dds_subscription_data: SubscriptionBuiltinTopicData,
}

/// What a topic announces about itself.
pub struct TopicBuiltinTopicData {
    pub key: InstanceHandle,
    pub name: String,
    pub data_type_name: String,
    pub qos: TopicQos,
}

impl TopicBuiltinTopicData {
    /// The topic name.
    pub fn name(&self) -> (r: &String)
        ensures
            r == self.name,
    {
        &self.name
    }

    /// The registered type name of the topic.
    pub fn get_type_name(&self) -> (r: &String)
        ensures
            r == self.data_type_name,
    {
        &self.data_type_name
    }
}

/// One topic announcement.
pub struct DiscoveredTopicData {
    pub topic_builtin_topic_data: TopicBuiltinTopicData,
}

impl DiscoveredTopicData {
    /// The announced topic data.
    pub fn topic_builtin_topic_data(&self) -> (r: &TopicBuiltinTopicData)
        ensures
            r == self.topic_builtin_topic_data,
    {
        &self.topic_builtin_topic_data
    }
}

} // verus!

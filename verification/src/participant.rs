//! The domain participant: it owns the builtin discovery endpoints and the
//! user publishers, subscribers and topics, runs participant and endpoint
//! discovery, and enforces the discovery lease.

use vstd::prelude::*;

use crate::data_reader::InstanceStateKind;
use crate::discovery::{DiscoveredReaderData, DiscoveredWriterData,
    ParticipantBuiltinTopicData, ParticipantProxy, SpdpDiscoveredParticipantData,
    TopicBuiltinTopicData, BUILTIN_ENDPOINT_PUBLICATIONS_ANNOUNCER,
    BUILTIN_ENDPOINT_PUBLICATIONS_DETECTOR, BUILTIN_ENDPOINT_SUBSCRIPTIONS_ANNOUNCER,
    BUILTIN_ENDPOINT_SUBSCRIPTIONS_DETECTOR, BUILTIN_ENDPOINT_TOPICS_ANNOUNCER,
    BUILTIN_ENDPOINT_TOPICS_DETECTOR};
use crate::error::DdsError;
use crate::history_cache::HistoryCache;
use crate::publisher::Publisher;
use crate::qos::{DomainParticipantQos, DurationKind, HistoryQosPolicyKind, LengthKind,
    PublisherQos, QosKind, SubscriberQos, TopicQos};
use crate::reader::WriterProxy;
use crate::subscriber::Subscriber;
use crate::types::{Duration, EntityId, GuidPrefix, InstanceHandle, Locator, ProtocolVersion,
    ReliabilityKind, TopicKind, VendorId, GUID, USER_DEFINED_READER_GROUP, USER_DEFINED_TOPIC,
    USER_DEFINED_WRITER_GROUP};
use crate::writer::{ReaderProxy, StatefulWriter};

verus! {

/// One locator a stateless writer pushes every change to.
pub struct ReaderLocator {
    pub locator: Locator,
    pub expects_inline_qos: bool,
}

/// A writer without per-reader state: it pushes to plain locators.
pub struct StatelessWriter {
    pub guid: GUID,
    pub reader_locators: Vec<ReaderLocator>,
    pub writer_cache: HistoryCache,
    pub last_change_sequence_number: i64,
}

/// A reader without per-writer state: it accepts from any source.
pub struct StatelessReader {
    pub guid: GUID,
    pub reader_cache: HistoryCache,
}

/// A builtin stateful reader: the per-writer proxies of one detector and
/// its heartbeat-response timing.
pub struct BuiltinStatefulReader {
    pub guid: GUID,
    pub heartbeat_response_delay: DurationKind,
    pub heartbeat_suppression_duration: DurationKind,
    pub expects_inline_qos: bool,
    pub matched_writers: Vec<WriterProxy>,
}

/// One discovered participant with the deadline its lease runs to.
pub struct DiscoveredParticipantEntry {
    pub handle: InstanceHandle,
    pub data: SpdpDiscoveredParticipantData,
    pub lease_deadline_sec: i64,
}

/// One topic of the participant: its identity, name, type and policies.
pub struct Topic {
    pub guid: GUID,
    pub name: String,
    pub data_type_name: String,
    pub qos: TopicQos,
}

/// The period between the heartbeats of a builtin reliable writer.
pub fn default_heartbeat_period() -> (r: DurationKind)
    ensures
        r == DurationKind::Finite(Duration { seconds: 2, fraction: 0 }),
{
    DurationKind::Finite(Duration { seconds: 2, fraction: 0 })
}

/// The delay before a writer answers a negative acknowledgement.
pub fn default_nack_response_delay() -> (r: DurationKind)
    ensures
        r == DurationKind::Finite(Duration { seconds: 0, fraction: 200 }),
{
    DurationKind::Finite(Duration { seconds: 0, fraction: 200 })
}

/// The window within which a repeated negative acknowledgement is ignored.
pub fn default_nack_suppression_duration() -> (r: DurationKind)
    ensures
        r == DurationKind::Finite(Duration { seconds: 0, fraction: 0 }),
{
    DurationKind::Finite(Duration { seconds: 0, fraction: 0 })
}

/// The delay before a reader answers a heartbeat.
pub fn default_heartbeat_response_delay() -> (r: DurationKind)
    ensures
        r == DurationKind::Finite(Duration { seconds: 0, fraction: 500 }),
{
    DurationKind::Finite(Duration { seconds: 0, fraction: 500 })
}

/// The window within which a repeated heartbeat is ignored.
pub fn default_heartbeat_suppression_duration() -> (r: DurationKind)
    ensures
        r == DurationKind::Finite(Duration { seconds: 0, fraction: 0 }),
{
    DurationKind::Finite(Duration { seconds: 0, fraction: 0 })
}

/// Build one builtin reliable stateful writer.
pub fn create_builtin_stateful_writer(guid: GUID) -> (r: StatefulWriter)
    ensures
        r.guid == guid,
        r.topic_kind == TopicKind::WithKey,
        r.reliability == ReliabilityKind::Reliable,
        r.push_mode,
        r.heartbeat_period == DurationKind::Finite(Duration { seconds: 2, fraction: 0 }),
        r.nack_response_delay == DurationKind::Finite(Duration { seconds: 0, fraction: 200 }),
        r.nack_suppression_duration == DurationKind::Finite(
            Duration { seconds: 0, fraction: 0 },
        ),
        r.data_max_size_serialized == usize::MAX,
        r.writer_cache.changes@.len() == 0,
        r.writer_cache.history_kind == HistoryQosPolicyKind::KeepLast(1),
        r.matched_readers@.len() == 0,
        r.last_change_sequence_number == 0,
        r.wf(),
{
    let cache = HistoryCache::new(HistoryQosPolicyKind::KeepLast(1), LengthKind::Unlimited);
    StatefulWriter::new(
        guid,
        TopicKind::WithKey,
        ReliabilityKind::Reliable,
        true,
        default_heartbeat_period(),
        default_nack_response_delay(),
        default_nack_suppression_duration(),
        usize::MAX,
        cache,
    )
}

/// Build one builtin best-effort stateless writer.
pub fn create_builtin_stateless_writer(guid: GUID) -> (r: StatelessWriter)
    ensures
        r.guid == guid,
        r.reader_locators@.len() == 0,
        r.writer_cache.changes@.len() == 0,
        r.writer_cache.history_kind == HistoryQosPolicyKind::KeepLast(1),
        r.writer_cache.wf(),
        r.last_change_sequence_number == 0,
{
    StatelessWriter {
        guid,
        reader_locators: Vec::new(),
        writer_cache: HistoryCache::new(HistoryQosPolicyKind::KeepLast(1), LengthKind::Unlimited),
        last_change_sequence_number: 0,
    }
}

/// Build one builtin best-effort stateless reader.
pub fn create_builtin_stateless_reader(guid: GUID) -> (r: StatelessReader)
    ensures
        r.guid == guid,
        r.reader_cache.changes@.len() == 0,
        r.reader_cache.history_kind == HistoryQosPolicyKind::KeepLast(1),
        r.reader_cache.wf(),
{
    StatelessReader {
        guid,
        reader_cache: HistoryCache::new(HistoryQosPolicyKind::KeepLast(1), LengthKind::Unlimited),
    }
}

/// Build one builtin reliable stateful reader.
pub fn create_builtin_stateful_reader(guid: GUID) -> (r: BuiltinStatefulReader)
    ensures
        r.guid == guid,
        r.heartbeat_response_delay == DurationKind::Finite(
            Duration { seconds: 0, fraction: 500 },
        ),
        r.heartbeat_suppression_duration == DurationKind::Finite(
            Duration { seconds: 0, fraction: 0 },
        ),
        !r.expects_inline_qos,
        r.matched_writers@.len() == 0,
{
    BuiltinStatefulReader {
        guid,
        heartbeat_response_delay: default_heartbeat_response_delay(),
        heartbeat_suppression_duration: default_heartbeat_suppression_duration(),
        expects_inline_qos: false,
        matched_writers: Vec::new(),
    }
}

/// The clock reading used to stamp samples and run leases.
///
/// Relies on std's system clock: the seconds since the epoch, zero when the
/// clock reads before it. Two readings need not agree, so nothing more is
/// promised of the result.
#[verifier::external_body]
pub fn get_current_time() -> (r: i64)
    ensures
        0 <= r,
{
    match std::time::SystemTime::now().duration_since(std::time::UNIX_EPOCH) {
        Ok(d) => {
            let secs = d.as_secs();
            if secs > i64::MAX as u64 {
                i64::MAX
            } else {
                secs as i64
            }
        },
        Err(_) => 0,
    }
}

/// The participant: builtin endpoints, user entities and discovery state.
pub struct DomainParticipantActor {
    pub guid: GUID,
    pub domain_id: i32,
    pub domain_tag: String,
    pub qos: DomainParticipantQos,
    pub enabled: bool,
    pub spdp_builtin_participant_writer: StatelessWriter,
    pub spdp_builtin_participant_reader: StatelessReader,
    pub sedp_builtin_topics_announcer: StatefulWriter,
    pub sedp_builtin_topics_detector: BuiltinStatefulReader,
    pub sedp_builtin_publications_announcer: StatefulWriter,
    pub sedp_builtin_publications_detector: BuiltinStatefulReader,
    pub sedp_builtin_subscriptions_announcer: StatefulWriter,
    pub sedp_builtin_subscriptions_detector: BuiltinStatefulReader,
    pub user_defined_publisher_list: Vec<Publisher>,
    pub user_defined_publisher_counter: u8,
    pub default_publisher_qos: PublisherQos,
    pub user_defined_subscriber_list: Vec<Subscriber>,
    pub user_defined_subscriber_counter: u8,
    pub default_subscriber_qos: SubscriberQos,
    pub user_defined_topic_list: Vec<Topic>,
    pub user_defined_topic_counter: u8,
    pub default_topic_qos: TopicQos,
    pub manual_liveliness_count: i32,
    pub lease_duration: DurationKind,
    pub discovered_participant_list: Vec<DiscoveredParticipantEntry>,
    pub discovered_topic_list: Vec<(InstanceHandle, TopicBuiltinTopicData)>,
    pub ignored_participants: Vec<InstanceHandle>,
    pub ignored_publications: Vec<InstanceHandle>,
    pub ignored_subcriptions: Vec<InstanceHandle>,
    pub ignored_topic_list: Vec<InstanceHandle>,
    pub data_max_size_serialized: usize,
    pub metatraffic_unicast_locator_list: Vec<Locator>,
    pub metatraffic_multicast_locator_list: Vec<Locator>,
    pub default_unicast_locator_list: Vec<Locator>,
    pub default_multicast_locator_list: Vec<Locator>,
    pub protocol_version: ProtocolVersion,
    pub vendor_id: VendorId,
}

impl DomainParticipantActor {
    /// The builtin writers, the publishers and the subscribers are sound,
    /// and every builtin cache keeps the last announcement of each instance.
    pub open spec fn wf(self) -> bool {
        &&& self.sedp_builtin_topics_announcer.wf()
        &&& self.sedp_builtin_publications_announcer.wf()
        &&& self.sedp_builtin_subscriptions_announcer.wf()
        &&& self.sedp_builtin_topics_announcer.writer_cache.history_kind
            == HistoryQosPolicyKind::KeepLast(1)
        &&& self.sedp_builtin_publications_announcer.writer_cache.history_kind
            == HistoryQosPolicyKind::KeepLast(1)
        &&& self.sedp_builtin_subscriptions_announcer.writer_cache.history_kind
            == HistoryQosPolicyKind::KeepLast(1)
        &&& self.spdp_builtin_participant_writer.writer_cache.wf()
        &&& self.spdp_builtin_participant_writer.writer_cache.history_kind
            == HistoryQosPolicyKind::KeepLast(1)
        &&& self.spdp_builtin_participant_writer.last_change_sequence_number >= 0
        &&& forall|i: int| 0 <= i < self.user_defined_publisher_list@.len()
            ==> (#[trigger] self.user_defined_publisher_list@[i]).wf()
        &&& forall|i: int| 0 <= i < self.user_defined_subscriber_list@.len()
            ==> (#[trigger] self.user_defined_subscriber_list@[i]).wf()
    }

    /// A fresh participant with its builtin discovery endpoints.
    ///
    /// The participant-discovery pair is best-effort and stateless; the six
    /// endpoint-discovery endpoints are reliable and stateful; the given
    /// locators receive every participant announcement.
    pub fn new(
        guid_prefix: GuidPrefix,
        domain_id: i32,
        domain_tag: String,
        domain_participant_qos: DomainParticipantQos,
        spdp_discovery_locator_list: Vec<Locator>,
        data_max_size_serialized: usize,
    ) -> (r: DomainParticipantActor)
        ensures
            r.guid == (GUID { prefix: guid_prefix, entity_id: EntityId {
                entity_key: [0, 0, 0x01],
                entity_kind: crate::types::BUILT_IN_PARTICIPANT,
            } }),
            r.domain_id == domain_id,
            r.domain_tag@ == domain_tag@,
            r.qos == domain_participant_qos,
            !r.enabled,
            r.spdp_builtin_participant_writer.guid.prefix == guid_prefix,
            r.spdp_builtin_participant_writer.guid.entity_id == (EntityId {
                entity_key: [0x00, 0x01, 0x00],
                entity_kind: crate::types::BUILT_IN_WRITER_WITH_KEY,
            }),
            r.spdp_builtin_participant_writer.reader_locators@.len()
                == spdp_discovery_locator_list@.len(),
            forall|i: int| 0 <= i < spdp_discovery_locator_list@.len()
                ==> (#[trigger] r.spdp_builtin_participant_writer.reader_locators@[i]).locator
                    == spdp_discovery_locator_list@[i]
                    && !r.spdp_builtin_participant_writer.reader_locators@[i].expects_inline_qos,
            r.spdp_builtin_participant_reader.guid.entity_id == (EntityId {
                entity_key: [0x00, 0x01, 0x00],
                entity_kind: crate::types::BUILT_IN_READER_WITH_KEY,
            }),
            r.sedp_builtin_topics_announcer.guid.entity_id == (EntityId {
                entity_key: [0, 0, 0x02],
                entity_kind: crate::types::BUILT_IN_WRITER_WITH_KEY,
            }),
            r.sedp_builtin_topics_detector.guid.entity_id == (EntityId {
                entity_key: [0, 0, 0x02],
                entity_kind: crate::types::BUILT_IN_READER_WITH_KEY,
            }),
            r.sedp_builtin_publications_announcer.guid.entity_id == (EntityId {
                entity_key: [0, 0, 0x03],
                entity_kind: crate::types::BUILT_IN_WRITER_WITH_KEY,
            }),
            r.sedp_builtin_publications_detector.guid.entity_id == (EntityId {
                entity_key: [0, 0, 0x03],
                entity_kind: crate::types::BUILT_IN_READER_WITH_KEY,
            }),
            r.sedp_builtin_subscriptions_announcer.guid.entity_id == (EntityId {
                entity_key: [0, 0, 0x04],
                entity_kind: crate::types::BUILT_IN_WRITER_WITH_KEY,
            }),
            r.sedp_builtin_subscriptions_detector.guid.entity_id == (EntityId {
                entity_key: [0, 0, 0x04],
                entity_kind: crate::types::BUILT_IN_READER_WITH_KEY,
            }),
            r.sedp_builtin_topics_announcer.guid.prefix == guid_prefix,
            r.sedp_builtin_publications_announcer.guid.prefix == guid_prefix,
            r.sedp_builtin_subscriptions_announcer.guid.prefix == guid_prefix,
            r.user_defined_publisher_list@.len() == 0,
            r.user_defined_subscriber_list@.len() == 0,
            r.user_defined_topic_list@.len() == 0,
            r.discovered_participant_list@.len() == 0,
            r.discovered_topic_list@.len() == 0,
            r.ignored_participants@.len() == 0,
            r.ignored_publications@.len() == 0,
            r.ignored_subcriptions@.len() == 0,
            r.ignored_topic_list@.len() == 0,
            r.user_defined_publisher_counter == 0,
            r.user_defined_subscriber_counter == 0,
            r.user_defined_topic_counter == 0,
            r.manual_liveliness_count == 0,
            r.lease_duration == DurationKind::Finite(Duration { seconds: 100, fraction: 0 }),
            r.data_max_size_serialized == data_max_size_serialized,
            r.protocol_version == (ProtocolVersion { major: 2, minor: 4 }),
            r.vendor_id.0@ == seq![0u8, 0u8],
            r.metatraffic_unicast_locator_list@.len() == 0,
            r.metatraffic_multicast_locator_list@.len() == 0,
            r.default_unicast_locator_list@.len() == 0,
            r.default_multicast_locator_list@.len() == 0,
            r.wf(),
    {
        let lease_duration = DurationKind::Finite(Duration { seconds: 100, fraction: 0 });
        let mut spdp_builtin_participant_writer = create_builtin_stateless_writer(
            GUID {
                prefix: guid_prefix,
                entity_id: EntityId {
                    entity_key: [0x00, 0x01, 0x00],
                    entity_kind: crate::types::BUILT_IN_WRITER_WITH_KEY,
                },
            },
        );
        let mut i: usize = 0;
        while i < spdp_discovery_locator_list.len()
            invariant
                0 <= i <= spdp_discovery_locator_list@.len(),
                spdp_builtin_participant_writer.reader_locators@.len() == i,
                forall|k: int| 0 <= k < i
                    ==> (#[trigger] spdp_builtin_participant_writer.reader_locators@[k]).locator
                        == spdp_discovery_locator_list@[k]
                        && !spdp_builtin_participant_writer.reader_locators@[
                        k
                    ].expects_inline_qos,
                spdp_builtin_participant_writer.guid == (GUID {
                    prefix: guid_prefix,
                    entity_id: EntityId {
                        entity_key: [0x00, 0x01, 0x00],
                        entity_kind: crate::types::BUILT_IN_WRITER_WITH_KEY,
                    },
                }),
                spdp_builtin_participant_writer.writer_cache.wf(),
                spdp_builtin_participant_writer.writer_cache.history_kind
                    == HistoryQosPolicyKind::KeepLast(1),
                spdp_builtin_participant_writer.last_change_sequence_number == 0,
            decreases spdp_discovery_locator_list@.len() - i,
        {
            spdp_builtin_participant_writer.reader_locators.push(
                ReaderLocator { locator: spdp_discovery_locator_list[i], expects_inline_qos: false },
            );
            i = i + 1;
        }
        DomainParticipantActor {
            guid: GUID {
                prefix: guid_prefix,
                entity_id: EntityId {
                    entity_key: [0, 0, 0x01],
                    entity_kind: crate::types::BUILT_IN_PARTICIPANT,
                },
            },
            domain_id,
            domain_tag,
            qos: domain_participant_qos,
            enabled: false,
            spdp_builtin_participant_writer,
            spdp_builtin_participant_reader: create_builtin_stateless_reader(
                GUID {
                    prefix: guid_prefix,
                    entity_id: EntityId {
                        entity_key: [0x00, 0x01, 0x00],
                        entity_kind: crate::types::BUILT_IN_READER_WITH_KEY,
                    },
                },
            ),
            sedp_builtin_topics_announcer: create_builtin_stateful_writer(
                GUID {
                    prefix: guid_prefix,
                    entity_id: EntityId {
                        entity_key: [0, 0, 0x02],
                        entity_kind: crate::types::BUILT_IN_WRITER_WITH_KEY,
                    },
                },
            ),
            sedp_builtin_topics_detector: create_builtin_stateful_reader(
                GUID {
                    prefix: guid_prefix,
                    entity_id: EntityId {
                        entity_key: [0, 0, 0x02],
                        entity_kind: crate::types::BUILT_IN_READER_WITH_KEY,
                    },
                },
            ),
            sedp_builtin_publications_announcer: create_builtin_stateful_writer(
                GUID {
                    prefix: guid_prefix,
                    entity_id: EntityId {
                        entity_key: [0, 0, 0x03],
                        entity_kind: crate::types::BUILT_IN_WRITER_WITH_KEY,
                    },
                },
            ),
            sedp_builtin_publications_detector: create_builtin_stateful_reader(
                GUID {
                    prefix: guid_prefix,
                    entity_id: EntityId {
                        entity_key: [0, 0, 0x03],
                        entity_kind: crate::types::BUILT_IN_READER_WITH_KEY,
                    },
                },
            ),
            sedp_builtin_subscriptions_announcer: create_builtin_stateful_writer(
                GUID {
                    prefix: guid_prefix,
                    entity_id: EntityId {
                        entity_key: [0, 0, 0x04],
                        entity_kind: crate::types::BUILT_IN_WRITER_WITH_KEY,
                    },
                },
            ),
            sedp_builtin_subscriptions_detector: create_builtin_stateful_reader(
                GUID {
                    prefix: guid_prefix,
                    entity_id: EntityId {
                        entity_key: [0, 0, 0x04],
                        entity_kind: crate::types::BUILT_IN_READER_WITH_KEY,
                    },
                },
            ),
            user_defined_publisher_list: Vec::new(),
            user_defined_publisher_counter: 0,
            default_publisher_qos: Default::default(),
            user_defined_subscriber_list: Vec::new(),
            user_defined_subscriber_counter: 0,
            default_subscriber_qos: Default::default(),
            user_defined_topic_list: Vec::new(),
            user_defined_topic_counter: 0,
            default_topic_qos: Default::default(),
            manual_liveliness_count: 0,
            lease_duration,
            discovered_participant_list: Vec::new(),
            discovered_topic_list: Vec::new(),
            ignored_participants: Vec::new(),
            ignored_publications: Vec::new(),
            ignored_subcriptions: Vec::new(),
            ignored_topic_list: Vec::new(),
            data_max_size_serialized,
            metatraffic_unicast_locator_list: Vec::new(),
            metatraffic_multicast_locator_list: Vec::new(),
            default_unicast_locator_list: Vec::new(),
            default_multicast_locator_list: Vec::new(),
            protocol_version: crate::types::protocolversion_2_4(),
            vendor_id: crate::types::vendor_id_unknown(),
        }
    }

    /// The participant's identity handle.
    pub fn get_instance_handle(&self) -> (r: InstanceHandle)
        ensures
            r.0@ == self.guid.spec_to_bytes(),
    {
        InstanceHandle::from_guid(&self.guid)
    }

    /// Mark the participant enabled.
    pub fn enable(&mut self)
        ensures
            *final(self) == (DomainParticipantActor { enabled: true, ..*old(self) }),
    {
        self.enabled = true;
    }

    /// Whether the participant is enabled.
    pub fn is_enabled(&self) -> (r: bool)
        ensures
            r == self.enabled,
    {
        self.enabled
    }

    /// Whether the participant owns no user entities.
    pub fn is_empty(&self) -> (r: bool)
        ensures
            r == (self.user_defined_publisher_list@.len() == 0
                && self.user_defined_subscriber_list@.len() == 0
                && self.user_defined_topic_list@.len() == 0),
    {
        self.user_defined_publisher_list.len() == 0 && self.user_defined_subscriber_list.len()
            == 0 && self.user_defined_topic_list.len() == 0
    }

    /// The participant's own policies.
    pub fn get_qos(&self) -> (r: &DomainParticipantQos)
        ensures
            r == self.qos,
    {
        &self.qos
    }

    /// Replace the participant's own policies.
    pub fn set_qos(&mut self, qos: DomainParticipantQos) -> (r: Result<(), DdsError>)
        ensures
            r is Ok,
            *final(self) == (DomainParticipantActor { qos, ..*old(self) }),
    {
        self.qos = qos;
        Ok(())
    }

    /// The domain this participant belongs to.
    pub fn get_domain_id(&self) -> (r: i32)
        ensures
            r == self.domain_id,
    {
        self.domain_id
    }

    /// The size bound over which payloads are fragmented.
    pub fn data_max_size_serialized(&self) -> (r: usize)
        ensures
            r == self.data_max_size_serialized,
    {
        self.data_max_size_serialized
    }

    /// The locators this participant receives discovery traffic on.
    pub fn get_metatraffic_unicast_locator_list(&self) -> (r: &Vec<Locator>)
        ensures
            r == self.metatraffic_unicast_locator_list,
    {
        &self.metatraffic_unicast_locator_list
    }

    /// The multicast locators this participant receives discovery traffic on.
    pub fn get_metatraffic_multicast_locator_list(&self) -> (r: &Vec<Locator>)
        ensures
            r == self.metatraffic_multicast_locator_list,
    {
        &self.metatraffic_multicast_locator_list
    }

    /// The locators this participant receives user traffic on.
    pub fn get_default_unicast_locator_list(&self) -> (r: &Vec<Locator>)
        ensures
            r == self.default_unicast_locator_list,
    {
        &self.default_unicast_locator_list
    }

    /// The multicast locators this participant receives user traffic on.
    pub fn get_default_multicast_locator_list(&self) -> (r: &Vec<Locator>)
        ensures
            r == self.default_multicast_locator_list,
    {
        &self.default_multicast_locator_list
    }

    /// The announcement data of one discovered participant.
    ///
    /// Asking about a participant never discovered fails with
    /// `PreconditionNotMet`.
    pub fn get_discovered_participant_data(&self, participant_handle: &InstanceHandle) -> (r:
        Result<&SpdpDiscoveredParticipantData, DdsError>)
        ensures
            match r {
                Ok(d) => exists|k: int|
                    0 <= k < self.discovered_participant_list@.len()
                        && (#[trigger] self.discovered_participant_list@[k]).handle.0@
                        == participant_handle.0@ && d == &self.discovered_participant_list@[
                        k
                    ].data,
                Err(e) => {
                    &&& e matches DdsError::PreconditionNotMet(_)
                    &&& forall|k: int| 0 <= k < self.discovered_participant_list@.len()
                        ==> (#[trigger] self.discovered_participant_list@[k]).handle.0@
                            != participant_handle.0@
                },
            },
    {
        let mut i: usize = 0;
        while i < self.discovered_participant_list.len()
            invariant
                0 <= i <= self.discovered_participant_list@.len(),
                forall|k: int| 0 <= k < i
                    ==> (#[trigger] self.discovered_participant_list@[k]).handle.0@
                        != participant_handle.0@,
            decreases self.discovered_participant_list@.len() - i,
        {
            if crate::types::bytes_eq(
                &self.discovered_participant_list[i].handle.0,
                &participant_handle.0,
            ) {
                return Ok(&self.discovered_participant_list[i].data);
            }
            i = i + 1;
        }
        Err(
            DdsError::PreconditionNotMet(
                "Participant with this instance handle not discovered".to_owned(),
            ),
        )
    }

    /// The announcement data of one discovered topic.
    ///
    /// Asking about a topic never discovered fails with
    /// `PreconditionNotMet`.
    pub fn get_discovered_topic_data(&self, topic_handle: &InstanceHandle) -> (r: Result<
        &TopicBuiltinTopicData,
        DdsError,
    >)
        ensures
            match r {
                Ok(d) => exists|k: int|
                    0 <= k < self.discovered_topic_list@.len()
                        && (#[trigger] self.discovered_topic_list@[k]).0.0@ == topic_handle.0@
                        && d == &self.discovered_topic_list@[k].1,
                Err(e) => {
                    &&& e matches DdsError::PreconditionNotMet(_)
                    &&& forall|k: int| 0 <= k < self.discovered_topic_list@.len()
                        ==> (#[trigger] self.discovered_topic_list@[k]).0.0@ != topic_handle.0@
                },
            },
    {
        let mut i: usize = 0;
        while i < self.discovered_topic_list.len()
            invariant
                0 <= i <= self.discovered_topic_list@.len(),
                forall|k: int| 0 <= k < i
                    ==> (#[trigger] self.discovered_topic_list@[k]).0.0@ != topic_handle.0@,
            decreases self.discovered_topic_list@.len() - i,
        {
            if crate::types::bytes_eq(&self.discovered_topic_list[i].0.0, &topic_handle.0) {
                return Ok(&self.discovered_topic_list[i].1);
            }
            i = i + 1;
        }
        Err(DdsError::PreconditionNotMet("Topic with this handle not discovered".to_owned()))
    }

    /// Delete the topic with this identity.
    ///
    /// The deletion succeeds exactly when the participant holds a topic
    /// with this handle whose name no writer and no reader stands on; that
    /// topic then leaves. Otherwise nothing changes and `PreconditionNotMet`
    /// says whether the topic is still attached or belongs elsewhere.
    pub fn delete_user_defined_topic(&mut self, handle: &InstanceHandle) -> (r: Result<
        (),
        DdsError,
    >)
        requires
            old(self).wf(),
        ensures
            final(self).wf(),
            match r {
                Ok(()) => exists|k: int|
                    {
                        &&& 0 <= k < old(self).user_defined_topic_list@.len()
                        &&& (#[trigger] old(self).user_defined_topic_list@[
                            k
                        ]).guid.spec_to_bytes() == handle.0@
                        &&& !spec_topic_name_in_use(
                            *old(self),
                            old(self).user_defined_topic_list@[k].name@,
                        )
                        &&& final(self).user_defined_topic_list@ == old(self).user_defined_topic_list@.remove(k)
                    },
                Err(e) => {
                    &&& e matches DdsError::PreconditionNotMet(_)
                    &&& *final(self) == *old(self)
                    &&& forall|k: int|
                        0 <= k < old(self).user_defined_topic_list@.len()
                            && (#[trigger] old(self).user_defined_topic_list@[
                            k
                        ]).guid.spec_to_bytes() == handle.0@ ==> spec_topic_name_in_use(
                            *old(self),
                            old(self).user_defined_topic_list@[k].name@,
                        )
                },
            },
    {
        let mut found_attached = false;
        let mut i: usize = 0;
        while i < self.user_defined_topic_list.len()
            invariant
                old(self).wf(),
                *self == *old(self),
                0 <= i <= self.user_defined_topic_list@.len(),
                forall|k: int|
                    0 <= k < i && (#[trigger] self.user_defined_topic_list@[
                        k
                    ]).guid.spec_to_bytes() == handle.0@ ==> spec_topic_name_in_use(
                        *old(self),
                        self.user_defined_topic_list@[k].name@,
                    ),
            decreases self.user_defined_topic_list@.len() - i,
        {
            let h = InstanceHandle::from_guid(&self.user_defined_topic_list[i].guid);
            if crate::types::bytes_eq(&h.0, &handle.0) {
                if !self.topic_in_use(i) {
                    self.user_defined_topic_list.remove(i);
                    return Ok(());
                }
                found_attached = true;
            }
            i = i + 1;
        }
        if found_attached {
            Err(
                DdsError::PreconditionNotMet(
                    "Topic still attached to some data writer or reader".to_owned(),
                ),
            )
        } else {
            Err(
                DdsError::PreconditionNotMet(
                    "Topic can only be deleted from its parent participant".to_owned(),
                ),
            )
        }
    }

    /// Whether some writer or reader uses the topic at this index.
    fn topic_in_use(&self, i: usize) -> (r: bool)
        requires
            i < self.user_defined_topic_list@.len(),
        ensures
            r == spec_topic_name_in_use(*self, self.user_defined_topic_list@[i as int].name@),
    {
        let name = &self.user_defined_topic_list[i].name;
        let ghost name_view = name@;
        let mut p: usize = 0;
        while p < self.user_defined_publisher_list.len()
            invariant
                0 <= p <= self.user_defined_publisher_list@.len(),
                name_view == self.user_defined_topic_list@[i as int].name@,
                name@ == name_view,
                forall|m: int, j: int|
                    0 <= m < p && 0 <= j
                        < (#[trigger] self.user_defined_publisher_list@[m]).data_writers@.len()
                        ==> (#[trigger] self.user_defined_publisher_list@[m].data_writers@[
                        j
                    ]).topic_name@ != name_view,
            decreases self.user_defined_publisher_list@.len() - p,
        {
            let found = self.user_defined_publisher_list[p].lookup_datawriter(name);
            if found.is_ok() {
                proof {
                    let k = choose|k: int|
                        0 <= k < self.user_defined_publisher_list@[p as int].data_writers@.len()
                            && (#[trigger] self.user_defined_publisher_list@[
                            p as int
                        ].data_writers@[k]).topic_name@ == name_view;
                    assert(self.user_defined_publisher_list@[p as int].data_writers@[
                        k
                    ].topic_name@ == name_view);
                }
                return true;
            }
            p = p + 1;
        }
        let mut q: usize = 0;
        while q < self.user_defined_subscriber_list.len()
            invariant
                0 <= q <= self.user_defined_subscriber_list@.len(),
                name_view == self.user_defined_topic_list@[i as int].name@,
                name@ == name_view,
                forall|m: int, j: int|
                    0 <= m < self.user_defined_publisher_list@.len() && 0 <= j
                        < (#[trigger] self.user_defined_publisher_list@[m]).data_writers@.len()
                        ==> (#[trigger] self.user_defined_publisher_list@[m].data_writers@[
                        j
                    ]).topic_name@ != name_view,
                forall|m: int, j: int|
                    0 <= m < q && 0 <= j
                        < (#[trigger] self.user_defined_subscriber_list@[m]).data_readers@.len()
                        ==> (#[trigger] self.user_defined_subscriber_list@[m].data_readers@[
                        j
                    ]).topic_name@ != name_view,
            decreases self.user_defined_subscriber_list@.len() - q,
        {
            let found = self.user_defined_subscriber_list[q].lookup_datareader(name);
            if found.is_some() {
                proof {
                    let k = choose|k: int|
                        0 <= k < self.user_defined_subscriber_list@[q as int].data_readers@.len()
                            && (#[trigger] self.user_defined_subscriber_list@[
                            q as int
                        ].data_readers@[k]).topic_name@ == name_view;
                    assert(self.user_defined_subscriber_list@[q as int].data_readers@[
                        k
                    ].topic_name@ == name_view);
                }
                return true;
            }
            q = q + 1;
        }
        false
    }

    /// Delete every publisher, subscriber and topic of this participant.
    pub fn delete_contained_entities(&mut self) -> (r: Result<(), DdsError>)
        requires
            old(self).wf(),
        ensures
            final(self).wf(),
            r is Ok,
            final(self).user_defined_publisher_list@ == Seq::<Publisher>::empty(),
            final(self).user_defined_subscriber_list@ == Seq::<Subscriber>::empty(),
            final(self).user_defined_topic_list@ == Seq::<Topic>::empty(),
    {
        self.user_defined_publisher_list = Vec::new();
        self.user_defined_subscriber_list = Vec::new();
        self.user_defined_topic_list = Vec::new();
        proof {
            assert(self.user_defined_publisher_list@ =~= Seq::<Publisher>::empty());
            assert(self.user_defined_subscriber_list@ =~= Seq::<Subscriber>::empty());
            assert(self.user_defined_topic_list@ =~= Seq::<Topic>::empty());
        }
        Ok(())
    }

    /// Suppress matching with this participant from now on.
    pub fn ignore_participant(&mut self, handle: InstanceHandle) -> (r: Result<(), DdsError>)
        ensures
            old(self).enabled ==> r is Ok && *final(self) == (DomainParticipantActor {
                ignored_participants: final(self).ignored_participants,
                ..*old(self)
            }) && final(self).ignored_participants@ == old(self).ignored_participants@.push(
                handle,
            ),
            !old(self).enabled ==> r == Result::<(), DdsError>::Err(DdsError::NotEnabled)
                && *final(self) == *old(self),
    {
        if self.enabled {
            self.ignored_participants.push(handle);
            Ok(())
        } else {
            Err(DdsError::NotEnabled)
        }
    }

    /// Suppress matching with this subscription from now on.
    pub fn ignore_subscription(&mut self, handle: InstanceHandle) -> (r: Result<(), DdsError>)
        ensures
            old(self).enabled ==> r is Ok && *final(self) == (DomainParticipantActor {
                ignored_subcriptions: final(self).ignored_subcriptions,
                ..*old(self)
            }) && final(self).ignored_subcriptions@ == old(self).ignored_subcriptions@.push(
                handle,
            ),
            !old(self).enabled ==> r == Result::<(), DdsError>::Err(DdsError::NotEnabled)
                && *final(self) == *old(self),
    {
        if self.enabled {
            self.ignored_subcriptions.push(handle);
            Ok(())
        } else {
            Err(DdsError::NotEnabled)
        }
    }

    /// Suppress matching with this publication from now on.
    pub fn ignore_publication(&mut self, handle: InstanceHandle) -> (r: Result<(), DdsError>)
        ensures
            old(self).enabled ==> r is Ok && *final(self) == (DomainParticipantActor {
                ignored_publications: final(self).ignored_publications,
                ..*old(self)
            }) && final(self).ignored_publications@ == old(self).ignored_publications@.push(
                handle,
            ),
            !old(self).enabled ==> r == Result::<(), DdsError>::Err(DdsError::NotEnabled)
                && *final(self) == *old(self),
    {
        if self.enabled {
            self.ignored_publications.push(handle);
            Ok(())
        } else {
            Err(DdsError::NotEnabled)
        }
    }

    /// Suppress matching with this topic from now on.
    pub fn ignore_topic(&mut self, handle: InstanceHandle) -> (r: Result<(), DdsError>)
        ensures
            old(self).enabled ==> r is Ok && *final(self) == (DomainParticipantActor {
                ignored_topic_list: final(self).ignored_topic_list,
                ..*old(self)
            }) && final(self).ignored_topic_list@ == old(self).ignored_topic_list@.push(handle),
            !old(self).enabled ==> r == Result::<(), DdsError>::Err(DdsError::NotEnabled)
                && *final(self) == *old(self),
    {
        if self.enabled {
            self.ignored_topic_list.push(handle);
            Ok(())
        } else {
            Err(DdsError::NotEnabled)
        }
    }

    /// The next fresh publisher id.
    pub fn create_unique_publisher_id(&mut self) -> (r: u8)
        requires
            old(self).user_defined_publisher_counter < 255,
        ensures
            r == old(self).user_defined_publisher_counter,
            *final(self) == (DomainParticipantActor {
                user_defined_publisher_counter: (old(self).user_defined_publisher_counter
                    + 1) as u8,
                ..*old(self)
            }),
    {
        let counter = self.user_defined_publisher_counter;
        self.user_defined_publisher_counter = self.user_defined_publisher_counter + 1;
        counter
    }

    /// The next fresh subscriber id.
    pub fn create_unique_subscriber_id(&mut self) -> (r: u8)
        requires
            old(self).user_defined_subscriber_counter < 255,
        ensures
            r == old(self).user_defined_subscriber_counter,
            *final(self) == (DomainParticipantActor {
                user_defined_subscriber_counter: (old(self).user_defined_subscriber_counter
                    + 1) as u8,
                ..*old(self)
            }),
    {
        let counter = self.user_defined_subscriber_counter;
        self.user_defined_subscriber_counter = self.user_defined_subscriber_counter + 1;
        counter
    }

    /// The next fresh topic id.
    pub fn create_unique_topic_id(&mut self) -> (r: u8)
        requires
            old(self).user_defined_topic_counter < 255,
        ensures
            r == old(self).user_defined_topic_counter,
            *final(self) == (DomainParticipantActor {
                user_defined_topic_counter: (old(self).user_defined_topic_counter + 1) as u8,
                ..*old(self)
            }),
    {
        let counter = self.user_defined_topic_counter;
        self.user_defined_topic_counter = self.user_defined_topic_counter + 1;
        counter
    }

    /// Create a publisher owned by this participant.
    pub fn create_user_defined_publisher(&mut self, qos: QosKind<PublisherQos>) -> (r:
        InstanceHandle)
        requires
            old(self).wf(),
            old(self).user_defined_publisher_counter < 255,
        ensures
            final(self).wf(),
            final(self).user_defined_publisher_list@.len() == old(self).user_defined_publisher_list@.len() + 1,
            final(self).user_defined_publisher_list@.take(old(self).user_defined_publisher_list@.len() as int) == old(self).user_defined_publisher_list@,
            final(self).user_defined_publisher_counter == old(self).user_defined_publisher_counter + 1,
            ({
                let p = final(self).user_defined_publisher_list@.last();
                &&& p.guid.prefix == old(self).guid.prefix
                &&& p.guid.entity_id == (EntityId {
                    entity_key: [old(self).user_defined_publisher_counter, 0, 0],
                    entity_kind: USER_DEFINED_WRITER_GROUP,
                })
                &&& r.0@ == p.guid.spec_to_bytes()
                &&& p.parent_participant_handle.0@ == old(self).guid.spec_to_bytes()
                &&& p.data_writers@.len() == 0
                &&& (qos matches QosKind::Specific(q) ==> p.qos == q)
            }),
    {
        let publisher_qos = match qos {
            QosKind::Default => clone_publisher_qos(&self.default_publisher_qos),
            QosKind::Specific(q) => q,
        };
        let counter = self.create_unique_publisher_id();
        let entity_id = EntityId {
            entity_key: [counter, 0, 0],
            entity_kind: USER_DEFINED_WRITER_GROUP,
        };
        let publisher_guid = GUID { prefix: self.guid.prefix, entity_id };
        let handle = InstanceHandle::from_guid(&publisher_guid);
        let participant_handle = self.get_instance_handle();
        let publisher = Publisher::new(publisher_guid, publisher_qos, participant_handle);
        let ghost pre = self.user_defined_publisher_list@;
        self.user_defined_publisher_list.push(publisher);
        proof {
            assert(self.user_defined_publisher_list@.take(pre.len() as int) =~= pre);
        }
        handle
    }

    /// Create a subscriber owned by this participant.
    pub fn create_user_defined_subscriber(&mut self, qos: QosKind<SubscriberQos>) -> (r:
        InstanceHandle)
        requires
            old(self).wf(),
            old(self).user_defined_subscriber_counter < 255,
        ensures
            final(self).wf(),
            final(self).user_defined_subscriber_list@.len() == old(self).user_defined_subscriber_list@.len() + 1,
            final(self).user_defined_subscriber_list@.take(old(self).user_defined_subscriber_list@.len() as int) == old(self).user_defined_subscriber_list@,
            final(self).user_defined_subscriber_counter == old(self).user_defined_subscriber_counter + 1,
            ({
                let s = final(self).user_defined_subscriber_list@.last();
                &&& s.guid.prefix == old(self).guid.prefix
                &&& s.guid.entity_id == (EntityId {
                    entity_key: [old(self).user_defined_subscriber_counter, 0, 0],
                    entity_kind: USER_DEFINED_READER_GROUP,
                })
                &&& r.0@ == s.guid.spec_to_bytes()
                &&& s.parent_participant_handle.0@ == old(self).guid.spec_to_bytes()
                &&& s.data_readers@.len() == 0
                &&& (qos matches QosKind::Specific(q) ==> s.qos == q)
            }),
    {
        let subscriber_qos = match qos {
            QosKind::Default => clone_subscriber_qos(&self.default_subscriber_qos),
            QosKind::Specific(q) => q,
        };
        let counter = self.create_unique_subscriber_id();
        let entity_id = EntityId {
            entity_key: [counter, 0, 0],
            entity_kind: USER_DEFINED_READER_GROUP,
        };
        let subscriber_guid = GUID { prefix: self.guid.prefix, entity_id };
        let handle = InstanceHandle::from_guid(&subscriber_guid);
        let participant_handle = self.get_instance_handle();
        let subscriber = Subscriber::new(subscriber_guid, subscriber_qos, participant_handle);
        let ghost pre = self.user_defined_subscriber_list@;
        self.user_defined_subscriber_list.push(subscriber);
        proof {
            assert(self.user_defined_subscriber_list@.take(pre.len() as int) =~= pre);
        }
        handle
    }

    /// Delete the publisher with this identity.
    ///
    /// The deletion succeeds exactly when the participant holds a publisher
    /// with this handle that owns no writers; that publisher then leaves.
    /// Otherwise nothing changes and `PreconditionNotMet` says whether the
    /// publisher still owns writers or belongs elsewhere.
    pub fn delete_user_defined_publisher(&mut self, handle: &InstanceHandle) -> (r: Result<
        (),
        DdsError,
    >)
        requires
            old(self).wf(),
        ensures
            final(self).wf(),
            match r {
                Ok(()) => exists|k: int|
                    {
                        &&& 0 <= k < old(self).user_defined_publisher_list@.len()
                        &&& (#[trigger] old(self).user_defined_publisher_list@[
                            k
                        ]).guid.spec_to_bytes() == handle.0@
                        &&& old(self).user_defined_publisher_list@[k].data_writers@.len() == 0
                        &&& final(self).user_defined_publisher_list@ == old(self).user_defined_publisher_list@.remove(k)
                    },
                Err(e) => {
                    &&& e matches DdsError::PreconditionNotMet(_)
                    &&& *final(self) == *old(self)
                    &&& forall|k: int|
                        0 <= k < old(self).user_defined_publisher_list@.len()
                            && (#[trigger] old(self).user_defined_publisher_list@[
                            k
                        ]).guid.spec_to_bytes() == handle.0@ ==> old(
                            self,
                        ).user_defined_publisher_list@[k].data_writers@.len() > 0
                },
            },
    {
        let mut found_nonempty = false;
        let mut i: usize = 0;
        while i < self.user_defined_publisher_list.len()
            invariant
                old(self).wf(),
                *self == *old(self),
                0 <= i <= self.user_defined_publisher_list@.len(),
                forall|k: int|
                    0 <= k < i && (#[trigger] self.user_defined_publisher_list@[
                        k
                    ]).guid.spec_to_bytes() == handle.0@
                        ==> self.user_defined_publisher_list@[k].data_writers@.len() > 0,
            decreases self.user_defined_publisher_list@.len() - i,
        {
            let h = self.user_defined_publisher_list[i].get_instance_handle();
            if crate::types::bytes_eq(&h.0, &handle.0) {
                if self.user_defined_publisher_list[i].data_writers.len() != 0 {
                    found_nonempty = true;
                    i = i + 1;
                    continue;
                }
                let ghost pre = self.user_defined_publisher_list@;
                self.user_defined_publisher_list.remove(i);
                proof {
                    assert forall|m: int| 0 <= m < self.user_defined_publisher_list@.len()
                        implies (#[trigger] self.user_defined_publisher_list@[m]).wf() by {
                        if m < i {
                            assert(old(self).user_defined_publisher_list@[m].wf());
                            assert(self.user_defined_publisher_list@[m] == pre[m]);
                        } else {
                            assert(old(self).user_defined_publisher_list@[m + 1].wf());
                            assert(self.user_defined_publisher_list@[m] == pre[m + 1]);
                        }
                    }
                }
                return Ok(());
            }
            i = i + 1;
        }
        if found_nonempty {
            Err(DdsError::PreconditionNotMet("Publisher still contains data writers".to_owned()))
        } else {
            Err(
                DdsError::PreconditionNotMet(
                    "Publisher can only be deleted from its parent participant".to_owned(),
                ),
            )
        }
    }

    /// Delete the subscriber with this identity.
    ///
    /// The deletion succeeds exactly when the participant holds a
    /// subscriber with this handle that owns no readers; that subscriber
    /// then leaves. Otherwise nothing changes and `PreconditionNotMet`
    /// says whether the subscriber still owns readers or belongs elsewhere.
    pub fn delete_user_defined_subscriber(&mut self, handle: &InstanceHandle) -> (r: Result<
        (),
        DdsError,
    >)
        requires
            old(self).wf(),
        ensures
            final(self).wf(),
            match r {
                Ok(()) => exists|k: int|
                    {
                        &&& 0 <= k < old(self).user_defined_subscriber_list@.len()
                        &&& (#[trigger] old(self).user_defined_subscriber_list@[
                            k
                        ]).guid.spec_to_bytes() == handle.0@
                        &&& old(self).user_defined_subscriber_list@[k].data_readers@.len() == 0
                        &&& final(self).user_defined_subscriber_list@ == old(self).user_defined_subscriber_list@.remove(k)
                    },
                Err(e) => {
                    &&& e matches DdsError::PreconditionNotMet(_)
                    &&& *final(self) == *old(self)
                    &&& forall|k: int|
                        0 <= k < old(self).user_defined_subscriber_list@.len()
                            && (#[trigger] old(self).user_defined_subscriber_list@[
                            k
                        ]).guid.spec_to_bytes() == handle.0@ ==> old(
                            self,
                        ).user_defined_subscriber_list@[k].data_readers@.len() > 0
                },
            },
    {
        let mut found_nonempty = false;
        let mut i: usize = 0;
        while i < self.user_defined_subscriber_list.len()
            invariant
                old(self).wf(),
                *self == *old(self),
                0 <= i <= self.user_defined_subscriber_list@.len(),
                forall|k: int|
                    0 <= k < i && (#[trigger] self.user_defined_subscriber_list@[
                        k
                    ]).guid.spec_to_bytes() == handle.0@
                        ==> self.user_defined_subscriber_list@[k].data_readers@.len() > 0,
            decreases self.user_defined_subscriber_list@.len() - i,
        {
            let h = self.user_defined_subscriber_list[i].get_instance_handle();
            if crate::types::bytes_eq(&h.0, &handle.0) {
                if !self.user_defined_subscriber_list[i].is_empty() {
                    found_nonempty = true;
                    i = i + 1;
                    continue;
                }
                let ghost pre = self.user_defined_subscriber_list@;
                self.user_defined_subscriber_list.remove(i);
                proof {
                    assert forall|m: int| 0 <= m < self.user_defined_subscriber_list@.len()
                        implies (#[trigger] self.user_defined_subscriber_list@[m]).wf() by {
                        if m < i {
                            assert(old(self).user_defined_subscriber_list@[m].wf());
                            assert(self.user_defined_subscriber_list@[m] == pre[m]);
                        } else {
                            assert(old(self).user_defined_subscriber_list@[m + 1].wf());
                            assert(self.user_defined_subscriber_list@[m] == pre[m + 1]);
                        }
                    }
                }
                return Ok(());
            }
            i = i + 1;
        }
        if found_nonempty {
            Err(DdsError::PreconditionNotMet("Subscriber still contains data readers".to_owned()))
        } else {
            Err(
                DdsError::PreconditionNotMet(
                    "Subscriber can only be deleted from its parent participant".to_owned(),
                ),
            )
        }
    }
}

/// Copy a set of publisher policies.
pub fn clone_publisher_qos(q: &PublisherQos) -> (r: PublisherQos)
    ensures
        r.partition.name@.len() == q.partition.name@.len(),
{
    let mut name: Vec<String> = Vec::new();
    let mut i: usize = 0;
    while i < q.partition.name.len()
        invariant
            0 <= i <= q.partition.name@.len(),
            name@.len() == i,
        decreases q.partition.name@.len() - i,
    {
        let part: &String = &q.partition.name[i];
        name.push(part.clone());
        i = i + 1;
    }
    PublisherQos { partition: crate::qos::PartitionQosPolicy { name } }
}

/// Copy a set of subscriber policies.
pub fn clone_subscriber_qos(q: &SubscriberQos) -> (r: SubscriberQos)
    ensures
        r.partition.name@.len() == q.partition.name@.len(),
{
    let mut name: Vec<String> = Vec::new();
    let mut i: usize = 0;
    while i < q.partition.name.len()
        invariant
            0 <= i <= q.partition.name@.len(),
            name@.len() == i,
        decreases q.partition.name@.len() - i,
    {
        let part: &String = &q.partition.name[i];
        name.push(part.clone());
        i = i + 1;
    }
    SubscriberQos { partition: crate::qos::PartitionQosPolicy { name } }
}


/// The identity bytes of the participant a prefix belongs to.
pub open spec fn spec_participant_handle_bytes(prefix: GuidPrefix) -> Seq<u8> {
    (GUID {
        prefix,
        entity_id: EntityId {
            entity_key: [0, 0, 0x01],
            entity_kind: crate::types::BUILT_IN_PARTICIPANT,
        },
    }).spec_to_bytes()
}

/// Some writer or reader of the participant stands on this topic name.
pub open spec fn spec_topic_name_in_use(p: DomainParticipantActor, name: Seq<char>) -> bool {
    ||| exists|i: int, j: int|
        0 <= i < p.user_defined_publisher_list@.len() && 0 <= j
            < p.user_defined_publisher_list@[i].data_writers@.len()
            && (#[trigger] p.user_defined_publisher_list@[i].data_writers@[j]).topic_name@
            == name
    ||| exists|i: int, j: int|
        0 <= i < p.user_defined_subscriber_list@.len() && 0 <= j
            < p.user_defined_subscriber_list@[i].data_readers@.len()
            && (#[trigger] p.user_defined_subscriber_list@[i].data_readers@[j]).topic_name@
            == name
}

/// True when some handle in the list carries these bytes.
pub open spec fn spec_handle_list_has(s: Seq<InstanceHandle>, bytes: Seq<u8>) -> bool {
    exists|i: int| 0 <= i < s.len() && (#[trigger] s[i]).0@ == bytes
}

/// An announcer gained the remote detector as a matched reader, when the
/// remote participant offers that endpoint; otherwise it stands unchanged.
pub open spec fn spec_announcer_matched(
    pre: StatefulWriter,
    post: StatefulWriter,
    data: SpdpDiscoveredParticipantData,
    endpoint_bit: u32,
    remote_entity_id: EntityId,
) -> bool {
    &&& post.guid == pre.guid
    &&& post.writer_cache == pre.writer_cache
    &&& post.last_change_sequence_number == pre.last_change_sequence_number
    &&& post.heartbeat_count == pre.heartbeat_count
    &&& if data.participant_proxy.available_builtin_endpoints.0 & endpoint_bit == endpoint_bit {
        &&& post.matched_readers@.len() == pre.matched_readers@.len() + 1
        &&& post.matched_readers@.take(pre.matched_readers@.len() as int)
            == pre.matched_readers@
        &&& post.matched_readers@.last().remote_reader_guid == (GUID {
            prefix: data.participant_proxy.guid_prefix,
            entity_id: remote_entity_id,
        })
        &&& post.matched_readers@.last().unicast_locator_list@
            == data.participant_proxy.metatraffic_unicast_locator_list@
        &&& post.matched_readers@.last().multicast_locator_list@
            == data.participant_proxy.metatraffic_multicast_locator_list@
        &&& post.matched_readers@.last().reliability == ReliabilityKind::Reliable
        &&& post.matched_readers@.last().highest_acked == 0
        &&& post.matched_readers@.last().highest_sent == 0
    } else {
        post.matched_readers == pre.matched_readers
    }
}

/// A detector gained the remote announcer as a matched writer, when the
/// remote participant offers that endpoint; otherwise it stands unchanged.
pub open spec fn spec_detector_matched(
    pre: BuiltinStatefulReader,
    post: BuiltinStatefulReader,
    data: SpdpDiscoveredParticipantData,
    endpoint_bit: u32,
    remote_entity_id: EntityId,
) -> bool {
    &&& post.guid == pre.guid
    &&& if data.participant_proxy.available_builtin_endpoints.0 & endpoint_bit == endpoint_bit {
        &&& post.matched_writers@.len() == pre.matched_writers@.len() + 1
        &&& post.matched_writers@.take(pre.matched_writers@.len() as int)
            == pre.matched_writers@
        &&& post.matched_writers@.last().remote_writer_guid == (GUID {
            prefix: data.participant_proxy.guid_prefix,
            entity_id: remote_entity_id,
        })
        &&& post.matched_writers@.last().unicast_locator_list@
            == data.participant_proxy.metatraffic_unicast_locator_list@
        &&& post.matched_writers@.last().multicast_locator_list@
            == data.participant_proxy.metatraffic_multicast_locator_list@
        &&& forall|s: int| !post.matched_writers@.last().spec_knows(s)
    } else {
        post.matched_writers == pre.matched_writers
    }
}

impl DomainParticipantActor {
    /// Match the publications announcer with the remote detector.
    pub fn add_matched_publications_detector(&mut self, data: &SpdpDiscoveredParticipantData)
        requires
            old(self).wf(),
        ensures
            final(self).wf(),
            *final(self) == (DomainParticipantActor {
                sedp_builtin_publications_announcer: final(self).sedp_builtin_publications_announcer,
                ..*old(self)
            }),
            spec_announcer_matched(
                old(self).sedp_builtin_publications_announcer,
                final(self).sedp_builtin_publications_announcer,
                *data,
                BUILTIN_ENDPOINT_PUBLICATIONS_DETECTOR,
                EntityId { entity_key: [0, 0, 0x03], entity_kind: crate::types::BUILT_IN_READER_WITH_KEY },
            ),
    {
        if data.participant_proxy.available_builtin_endpoints.has(
            BUILTIN_ENDPOINT_PUBLICATIONS_DETECTOR,
        ) {
            let remote_reader_guid = GUID {
                prefix: data.participant_proxy.guid_prefix,
                entity_id: EntityId {
                    entity_key: [0, 0, 0x03],
                    entity_kind: crate::types::BUILT_IN_READER_WITH_KEY,
                },
            };
            let proxy = ReaderProxy::new(
                remote_reader_guid,
                crate::types::entityid_unknown(),
                clone_locator_list(&data.participant_proxy.metatraffic_unicast_locator_list),
                clone_locator_list(&data.participant_proxy.metatraffic_multicast_locator_list),
                false,
                true,
                ReliabilityKind::Reliable,
            );
            let ghost pre = self.sedp_builtin_publications_announcer.matched_readers@;
            self.sedp_builtin_publications_announcer.matched_reader_add(proxy);
            proof {
                assert(self.sedp_builtin_publications_announcer.matched_readers@.take(
                    pre.len() as int,
                ) =~= pre);
            }
        }
    }

    /// Match the publications detector with the remote announcer.
    pub fn add_matched_publications_announcer(&mut self, data: &SpdpDiscoveredParticipantData)
        requires
            old(self).wf(),
        ensures
            final(self).wf(),
            *final(self) == (DomainParticipantActor {
                sedp_builtin_publications_detector: final(self).sedp_builtin_publications_detector,
                ..*old(self)
            }),
            spec_detector_matched(
                old(self).sedp_builtin_publications_detector,
                final(self).sedp_builtin_publications_detector,
                *data,
                BUILTIN_ENDPOINT_PUBLICATIONS_ANNOUNCER,
                EntityId { entity_key: [0, 0, 0x03], entity_kind: crate::types::BUILT_IN_WRITER_WITH_KEY },
            ),
    {
        if data.participant_proxy.available_builtin_endpoints.has(
            BUILTIN_ENDPOINT_PUBLICATIONS_ANNOUNCER,
        ) {
            let remote_writer_guid = GUID {
                prefix: data.participant_proxy.guid_prefix,
                entity_id: EntityId {
                    entity_key: [0, 0, 0x03],
                    entity_kind: crate::types::BUILT_IN_WRITER_WITH_KEY,
                },
            };
            let proxy = WriterProxy::new(
                remote_writer_guid,
                clone_locator_list(&data.participant_proxy.metatraffic_unicast_locator_list),
                clone_locator_list(&data.participant_proxy.metatraffic_multicast_locator_list),
                crate::types::entityid_unknown(),
            );
            let ghost pre = self.sedp_builtin_publications_detector.matched_writers@;
            self.sedp_builtin_publications_detector.matched_writers.push(proxy);
            proof {
                assert(self.sedp_builtin_publications_detector.matched_writers@.take(
                    pre.len() as int,
                ) =~= pre);
            }
        }
    }

    /// Match the subscriptions announcer with the remote detector.
    pub fn add_matched_subscriptions_detector(&mut self, data: &SpdpDiscoveredParticipantData)
        requires
            old(self).wf(),
        ensures
            final(self).wf(),
            *final(self) == (DomainParticipantActor {
                sedp_builtin_subscriptions_announcer: final(self).sedp_builtin_subscriptions_announcer,
                ..*old(self)
            }),
            spec_announcer_matched(
                old(self).sedp_builtin_subscriptions_announcer,
                final(self).sedp_builtin_subscriptions_announcer,
                *data,
                BUILTIN_ENDPOINT_SUBSCRIPTIONS_DETECTOR,
                EntityId { entity_key: [0, 0, 0x04], entity_kind: crate::types::BUILT_IN_READER_WITH_KEY },
            ),
    {
        if data.participant_proxy.available_builtin_endpoints.has(
            BUILTIN_ENDPOINT_SUBSCRIPTIONS_DETECTOR,
        ) {
            let remote_reader_guid = GUID {
                prefix: data.participant_proxy.guid_prefix,
                entity_id: EntityId {
                    entity_key: [0, 0, 0x04],
                    entity_kind: crate::types::BUILT_IN_READER_WITH_KEY,
                },
            };
            let proxy = ReaderProxy::new(
                remote_reader_guid,
                crate::types::entityid_unknown(),
                clone_locator_list(&data.participant_proxy.metatraffic_unicast_locator_list),
                clone_locator_list(&data.participant_proxy.metatraffic_multicast_locator_list),
                false,
                true,
                ReliabilityKind::Reliable,
            );
            let ghost pre = self.sedp_builtin_subscriptions_announcer.matched_readers@;
            self.sedp_builtin_subscriptions_announcer.matched_reader_add(proxy);
            proof {
                assert(self.sedp_builtin_subscriptions_announcer.matched_readers@.take(
                    pre.len() as int,
                ) =~= pre);
            }
        }
    }

    /// Match the subscriptions detector with the remote announcer.
    pub fn add_matched_subscriptions_announcer(&mut self, data: &SpdpDiscoveredParticipantData)
        requires
            old(self).wf(),
        ensures
            final(self).wf(),
            *final(self) == (DomainParticipantActor {
                sedp_builtin_subscriptions_detector: final(self).sedp_builtin_subscriptions_detector,
                ..*old(self)
            }),
            spec_detector_matched(
                old(self).sedp_builtin_subscriptions_detector,
                final(self).sedp_builtin_subscriptions_detector,
                *data,
                BUILTIN_ENDPOINT_SUBSCRIPTIONS_ANNOUNCER,
                EntityId { entity_key: [0, 0, 0x04], entity_kind: crate::types::BUILT_IN_WRITER_WITH_KEY },
            ),
    {
        if data.participant_proxy.available_builtin_endpoints.has(
            BUILTIN_ENDPOINT_SUBSCRIPTIONS_ANNOUNCER,
        ) {
            let remote_writer_guid = GUID {
                prefix: data.participant_proxy.guid_prefix,
                entity_id: EntityId {
                    entity_key: [0, 0, 0x04],
                    entity_kind: crate::types::BUILT_IN_WRITER_WITH_KEY,
                },
            };
            let proxy = WriterProxy::new(
                remote_writer_guid,
                clone_locator_list(&data.participant_proxy.metatraffic_unicast_locator_list),
                clone_locator_list(&data.participant_proxy.metatraffic_multicast_locator_list),
                crate::types::entityid_unknown(),
            );
            let ghost pre = self.sedp_builtin_subscriptions_detector.matched_writers@;
            self.sedp_builtin_subscriptions_detector.matched_writers.push(proxy);
            proof {
                assert(self.sedp_builtin_subscriptions_detector.matched_writers@.take(
                    pre.len() as int,
                ) =~= pre);
            }
        }
    }

    /// Match the topics announcer with the remote detector.
    pub fn add_matched_topics_detector(&mut self, data: &SpdpDiscoveredParticipantData)
        requires
            old(self).wf(),
        ensures
            final(self).wf(),
            *final(self) == (DomainParticipantActor {
                sedp_builtin_topics_announcer: final(self).sedp_builtin_topics_announcer,
                ..*old(self)
            }),
            spec_announcer_matched(
                old(self).sedp_builtin_topics_announcer,
                final(self).sedp_builtin_topics_announcer,
                *data,
                BUILTIN_ENDPOINT_TOPICS_DETECTOR,
                EntityId { entity_key: [0, 0, 0x02], entity_kind: crate::types::BUILT_IN_READER_WITH_KEY },
            ),
    {
        if data.participant_proxy.available_builtin_endpoints.has(
            BUILTIN_ENDPOINT_TOPICS_DETECTOR,
        ) {
            let remote_reader_guid = GUID {
                prefix: data.participant_proxy.guid_prefix,
                entity_id: EntityId {
                    entity_key: [0, 0, 0x02],
                    entity_kind: crate::types::BUILT_IN_READER_WITH_KEY,
                },
            };
            let proxy = ReaderProxy::new(
                remote_reader_guid,
                crate::types::entityid_unknown(),
                clone_locator_list(&data.participant_proxy.metatraffic_unicast_locator_list),
                clone_locator_list(&data.participant_proxy.metatraffic_multicast_locator_list),
                false,
                true,
                ReliabilityKind::Reliable,
            );
            let ghost pre = self.sedp_builtin_topics_announcer.matched_readers@;
            self.sedp_builtin_topics_announcer.matched_reader_add(proxy);
            proof {
                assert(self.sedp_builtin_topics_announcer.matched_readers@.take(pre.len() as int)
                    =~= pre);
            }
        }
    }

    /// Match the topics detector with the remote announcer.
    pub fn add_matched_topics_announcer(&mut self, data: &SpdpDiscoveredParticipantData)
        requires
            old(self).wf(),
        ensures
            final(self).wf(),
            *final(self) == (DomainParticipantActor {
                sedp_builtin_topics_detector: final(self).sedp_builtin_topics_detector,
                ..*old(self)
            }),
            spec_detector_matched(
                old(self).sedp_builtin_topics_detector,
                final(self).sedp_builtin_topics_detector,
                *data,
                BUILTIN_ENDPOINT_TOPICS_ANNOUNCER,
                EntityId { entity_key: [0, 0, 0x02], entity_kind: crate::types::BUILT_IN_WRITER_WITH_KEY },
            ),
    {
        if data.participant_proxy.available_builtin_endpoints.has(
            BUILTIN_ENDPOINT_TOPICS_ANNOUNCER,
        ) {
            let remote_writer_guid = GUID {
                prefix: data.participant_proxy.guid_prefix,
                entity_id: EntityId {
                    entity_key: [0, 0, 0x02],
                    entity_kind: crate::types::BUILT_IN_WRITER_WITH_KEY,
                },
            };
            let proxy = WriterProxy::new(
                remote_writer_guid,
                clone_locator_list(&data.participant_proxy.metatraffic_unicast_locator_list),
                clone_locator_list(&data.participant_proxy.metatraffic_multicast_locator_list),
                crate::types::entityid_unknown(),
            );
            let ghost pre = self.sedp_builtin_topics_detector.matched_writers@;
            self.sedp_builtin_topics_detector.matched_writers.push(proxy);
            proof {
                assert(self.sedp_builtin_topics_detector.matched_writers@.take(pre.len() as int)
                    =~= pre);
            }
        }
    }
}


/// The discovered-topic list gained or refreshed one entry under this
/// handle, carrying this topic name and type.
pub open spec fn spec_topic_recorded(
    pre: Seq<(InstanceHandle, TopicBuiltinTopicData)>,
    post: Seq<(InstanceHandle, TopicBuiltinTopicData)>,
    handle: InstanceHandle,
    name: Seq<char>,
    type_name_chars: Seq<char>,
) -> bool {
    if exists|k: int| 0 <= k < pre.len() && (#[trigger] pre[k]).0.0@ == handle.0@ {
        exists|k: int|
            {
                &&& 0 <= k < pre.len()
                &&& (#[trigger] pre[k]).0.0@ == handle.0@
                &&& post.len() == pre.len()
                &&& post[k].0.0@ == handle.0@
                &&& post[k].1.name@ == name
                &&& post[k].1.data_type_name@ == type_name_chars
                &&& forall|m: int| 0 <= m < pre.len() && m != k ==> post[m] == #[trigger] pre[m]
            }
    } else {
        &&& post.len() == pre.len() + 1
        &&& post.take(pre.len() as int) == pre
        &&& post.last().0.0@ == handle.0@
        &&& post.last().1.name@ == name
        &&& post.last().1.data_type_name@ == type_name_chars
    }
}

/// The remote participant may be matched: same domain, same tag, not
/// ignored. An announcement without a domain id counts as the local domain.
pub open spec fn spec_participant_acceptable(
    p: DomainParticipantActor,
    data: SpdpDiscoveredParticipantData,
) -> bool {
    &&& (match data.participant_proxy.domain_id {
        Option::Some(d) => d == p.domain_id,
        Option::None => true,
    })
    &&& data.participant_proxy.domain_tag@ == p.domain_tag@
    &&& !spec_handle_list_has(p.ignored_participants@, data.dds_participant_data.key.0@)
}

/// The discovered-participant list gained or refreshed one entry.
pub open spec fn spec_participant_upserted(
    pre: Seq<DiscoveredParticipantEntry>,
    post: Seq<DiscoveredParticipantEntry>,
    data: SpdpDiscoveredParticipantData,
    deadline: int,
) -> bool {
    if exists|k: int| 0 <= k < pre.len() && (#[trigger] pre[k]).handle.0@
        == data.dds_participant_data.key.0@ {
        exists|k: int|
            {
                &&& 0 <= k < pre.len()
                &&& (#[trigger] pre[k]).handle.0@ == data.dds_participant_data.key.0@
                &&& post.len() == pre.len()
                &&& post[k].handle.0@ == data.dds_participant_data.key.0@
                &&& post[k].lease_deadline_sec == deadline
                &&& forall|m: int| 0 <= m < pre.len() && m != k ==> post[m] == #[trigger] pre[m]
            }
    } else {
        &&& post.len() == pre.len() + 1
        &&& post.take(pre.len() as int) == pre
        &&& post.last().handle.0@ == data.dds_participant_data.key.0@
        &&& post.last().lease_deadline_sec == deadline
    }
}

impl DomainParticipantActor {
    /// Record or refresh one discovered participant.
    ///
    /// The lease deadline becomes `now_sec` plus the announced lease, and an
    /// already known participant keeps its place.
    fn upsert_discovered_participant(
        &mut self,
        data: SpdpDiscoveredParticipantData,
        now_sec: i64,
    )
        requires
            old(self).wf(),
            0 <= now_sec < 0x4000_0000_0000_0000,
        ensures
            final(self).wf(),
            *final(self) == (DomainParticipantActor {
                discovered_participant_list: final(self).discovered_participant_list,
                ..*old(self)
            }),
            spec_participant_upserted(
                old(self).discovered_participant_list@,
                final(self).discovered_participant_list@,
                data,
                now_sec + spec_lease_seconds(data.lease_duration),
            ),
    {
        let lease_sec: i64 = match data.lease_duration {
            DurationKind::Finite(d) => d.seconds as i64,
            DurationKind::Infinite => 0x7fff_ffff,
        };
        let deadline = now_sec + lease_sec;
        let handle = data.dds_participant_data.key;
        let mut i: usize = 0;
        while i < self.discovered_participant_list.len()
            invariant
                old(self).wf(),
                *self == *old(self),
                handle == data.dds_participant_data.key,
                deadline == now_sec + spec_lease_seconds(data.lease_duration),
                0 <= i <= self.discovered_participant_list@.len(),
                forall|k: int| 0 <= k < i
                    ==> (#[trigger] self.discovered_participant_list@[k]).handle.0@
                        != handle.0@,
            decreases self.discovered_participant_list@.len() - i,
        {
            if crate::types::bytes_eq(&self.discovered_participant_list[i].handle.0, &handle.0) {
                let ghost pre = self.discovered_participant_list@;
                let entry = DiscoveredParticipantEntry {
                    handle,
                    data,
                    lease_deadline_sec: deadline,
                };
                self.discovered_participant_list.set(i, entry);
                proof {
                    let post = self.discovered_participant_list@;
                    assert(pre[i as int].handle.0@ == handle.0@);
                    assert(post[i as int].handle.0@ == handle.0@);
                    assert(post[i as int].lease_deadline_sec == deadline);
                    assert forall|m: int| 0 <= m < pre.len() && m != i as int
                        implies post[m] == #[trigger] pre[m] by {}
                    assert(handle.0@ == data.dds_participant_data.key.0@);
                    assert(exists|k: int| 0 <= k < pre.len()
                        && (#[trigger] pre[k]).handle.0@ == data.dds_participant_data.key.0@);
                    assert(deadline == now_sec + spec_lease_seconds(data.lease_duration));
                    assert((0 <= (i as int) && (i as int) < pre.len()
                        && pre[i as int].handle.0@ == data.dds_participant_data.key.0@
                        && post.len() == pre.len()
                        && post[i as int].handle.0@ == data.dds_participant_data.key.0@
                        && post[i as int].lease_deadline_sec == deadline
                        && forall|m: int| 0 <= m < pre.len() && m != i as int
                            ==> post[m] == #[trigger] pre[m]));
                    assert(spec_participant_upserted(
                        pre,
                        post,
                        data,
                        now_sec + spec_lease_seconds(data.lease_duration),
                    ));
                    assert(pre == old(self).discovered_participant_list@);
                }
                return ;
            }
            i = i + 1;
        }
        let ghost pre = self.discovered_participant_list@;
        self.discovered_participant_list.push(
            DiscoveredParticipantEntry { handle, data, lease_deadline_sec: deadline },
        );
        proof {
            assert(self.discovered_participant_list@.take(pre.len() as int) =~= pre);
        }
    }

    /// Process one participant announcement.
    ///
    /// An announcement of another domain or tag, or of an ignored
    /// participant, changes nothing. An acceptable one matches the six
    /// endpoint-discovery endpoints with the remote ones the announcement
    /// offers and records the participant with a fresh lease deadline.
    pub fn process_discovered_participant_data(
        &mut self,
        discovered_participant_data: SpdpDiscoveredParticipantData,
        now_sec: i64,
    )
        requires
            old(self).wf(),
            0 <= now_sec < 0x4000_0000_0000_0000,
        ensures
            final(self).wf(),
            !spec_participant_acceptable(*old(self), discovered_participant_data) ==> *final(self)
                == *old(self),
            spec_participant_acceptable(*old(self), discovered_participant_data) ==> {
                &&& spec_announcer_matched(
                    old(self).sedp_builtin_publications_announcer,
                    final(self).sedp_builtin_publications_announcer,
                    discovered_participant_data,
                    BUILTIN_ENDPOINT_PUBLICATIONS_DETECTOR,
                    EntityId { entity_key: [0, 0, 0x03], entity_kind: crate::types::BUILT_IN_READER_WITH_KEY },
                )
                &&& spec_detector_matched(
                    old(self).sedp_builtin_publications_detector,
                    final(self).sedp_builtin_publications_detector,
                    discovered_participant_data,
                    BUILTIN_ENDPOINT_PUBLICATIONS_ANNOUNCER,
                    EntityId { entity_key: [0, 0, 0x03], entity_kind: crate::types::BUILT_IN_WRITER_WITH_KEY },
                )
                &&& spec_announcer_matched(
                    old(self).sedp_builtin_subscriptions_announcer,
                    final(self).sedp_builtin_subscriptions_announcer,
                    discovered_participant_data,
                    BUILTIN_ENDPOINT_SUBSCRIPTIONS_DETECTOR,
                    EntityId { entity_key: [0, 0, 0x04], entity_kind: crate::types::BUILT_IN_READER_WITH_KEY },
                )
                &&& spec_detector_matched(
                    old(self).sedp_builtin_subscriptions_detector,
                    final(self).sedp_builtin_subscriptions_detector,
                    discovered_participant_data,
                    BUILTIN_ENDPOINT_SUBSCRIPTIONS_ANNOUNCER,
                    EntityId { entity_key: [0, 0, 0x04], entity_kind: crate::types::BUILT_IN_WRITER_WITH_KEY },
                )
                &&& spec_announcer_matched(
                    old(self).sedp_builtin_topics_announcer,
                    final(self).sedp_builtin_topics_announcer,
                    discovered_participant_data,
                    BUILTIN_ENDPOINT_TOPICS_DETECTOR,
                    EntityId { entity_key: [0, 0, 0x02], entity_kind: crate::types::BUILT_IN_READER_WITH_KEY },
                )
                &&& spec_detector_matched(
                    old(self).sedp_builtin_topics_detector,
                    final(self).sedp_builtin_topics_detector,
                    discovered_participant_data,
                    BUILTIN_ENDPOINT_TOPICS_ANNOUNCER,
                    EntityId { entity_key: [0, 0, 0x02], entity_kind: crate::types::BUILT_IN_WRITER_WITH_KEY },
                )
                &&& spec_participant_upserted(
                    old(self).discovered_participant_list@,
                    final(self).discovered_participant_list@,
                    discovered_participant_data,
                    now_sec + spec_lease_seconds(discovered_participant_data.lease_duration),
                )
                &&& final(self).user_defined_publisher_list == old(self).user_defined_publisher_list
                &&& final(self).user_defined_subscriber_list == old(self).user_defined_subscriber_list
            },
    {
        let is_domain_id_matching = match discovered_participant_data.participant_proxy.domain_id {
            Option::Some(d) => d == self.domain_id,
            Option::None => true,
        };
        let is_domain_tag_matching = crate::data_reader::string_eq(
            &discovered_participant_data.participant_proxy.domain_tag,
            &self.domain_tag,
        );
        let is_participant_ignored = self.is_participant_ignored(
            &discovered_participant_data.dds_participant_data.key,
        );
        if is_domain_id_matching && is_domain_tag_matching && !is_participant_ignored {
            self.add_matched_publications_detector(&discovered_participant_data);
            self.add_matched_publications_announcer(&discovered_participant_data);
            self.add_matched_subscriptions_detector(&discovered_participant_data);
            self.add_matched_subscriptions_announcer(&discovered_participant_data);
            self.add_matched_topics_detector(&discovered_participant_data);
            self.add_matched_topics_announcer(&discovered_participant_data);
            self.upsert_discovered_participant(discovered_participant_data, now_sec);
        }
    }

    /// Whether this participant handle is on the ignore list.
    fn is_participant_ignored(&self, handle: &InstanceHandle) -> (r: bool)
        ensures
            r == spec_handle_list_has(self.ignored_participants@, handle.0@),
    {
        let mut i: usize = 0;
        while i < self.ignored_participants.len()
            invariant
                0 <= i <= self.ignored_participants@.len(),
                forall|k: int| 0 <= k < i
                    ==> (#[trigger] self.ignored_participants@[k]).0@ != handle.0@,
            decreases self.ignored_participants@.len() - i,
        {
            if crate::types::bytes_eq(&self.ignored_participants[i].0, &handle.0) {
                return true;
            }
            i = i + 1;
        }
        false
    }

    /// Process one participant-discovery sample.
    pub fn process_spdp_participant_discovery(
        &mut self,
        discovered_participant_data: SpdpDiscoveredParticipantData,
        now_sec: i64,
    )
        requires
            old(self).wf(),
            0 <= now_sec < 0x4000_0000_0000_0000,
        ensures
            final(self).wf(),
            !spec_participant_acceptable(*old(self), discovered_participant_data) ==> *final(self)
                == *old(self),
            spec_participant_acceptable(*old(self), discovered_participant_data) ==>
                spec_participant_upserted(
                old(self).discovered_participant_list@,
                final(self).discovered_participant_list@,
                discovered_participant_data,
                now_sec + spec_lease_seconds(discovered_participant_data.lease_duration),
            ),
    {
        self.process_discovered_participant_data(discovered_participant_data, now_sec);
    }

    /// Drop every discovered participant whose lease ran out.
    ///
    /// After the call no participant with a deadline before `now_sec`
    /// remains discovered.
    pub fn remove_expired_participants(&mut self, now_sec: i64)
        requires
            old(self).wf(),
        ensures
            final(self).wf(),
            *final(self) == (DomainParticipantActor {
                discovered_participant_list: final(self).discovered_participant_list,
                ..*old(self)
            }),
            final(self).discovered_participant_list@ == old(self).discovered_participant_list@.filter(
                |e: DiscoveredParticipantEntry| e.lease_deadline_sec >= now_sec,
            ),
            forall|k: int| 0 <= k < final(self).discovered_participant_list@.len()
                ==> (#[trigger] final(self).discovered_participant_list@[k]).lease_deadline_sec
                    >= now_sec,
    {
        let ghost pred = |e: DiscoveredParticipantEntry| e.lease_deadline_sec >= now_sec;
        let ghost pre = self.discovered_participant_list@;
        let mut i: usize = 0;
        let ghost j: int = 0;
        proof {
            reveal(Seq::filter);
            assert(pre.take(0int).filter(pred) =~= Seq::<DiscoveredParticipantEntry>::empty());
            assert(self.discovered_participant_list@ =~= pre.take(0int).filter(pred) + pre.skip(
                0int,
            ));
        }
        while i < self.discovered_participant_list.len()
            invariant
                old(self).wf(),
                self.guid == old(self).guid,
                self.domain_id == old(self).domain_id,
                self.domain_tag == old(self).domain_tag,
                self.qos == old(self).qos,
                self.enabled == old(self).enabled,
                self.spdp_builtin_participant_writer == old(self).spdp_builtin_participant_writer,
                self.spdp_builtin_participant_reader == old(self).spdp_builtin_participant_reader,
                self.sedp_builtin_topics_announcer == old(self).sedp_builtin_topics_announcer,
                self.sedp_builtin_topics_detector == old(self).sedp_builtin_topics_detector,
                self.sedp_builtin_publications_announcer == old(self).sedp_builtin_publications_announcer,
                self.sedp_builtin_publications_detector == old(self).sedp_builtin_publications_detector,
                self.sedp_builtin_subscriptions_announcer == old(self).sedp_builtin_subscriptions_announcer,
                self.sedp_builtin_subscriptions_detector == old(self).sedp_builtin_subscriptions_detector,
                self.user_defined_publisher_list == old(self).user_defined_publisher_list,
                self.user_defined_publisher_counter == old(self).user_defined_publisher_counter,
                self.default_publisher_qos == old(self).default_publisher_qos,
                self.user_defined_subscriber_list == old(self).user_defined_subscriber_list,
                self.user_defined_subscriber_counter == old(self).user_defined_subscriber_counter,
                self.default_subscriber_qos == old(self).default_subscriber_qos,
                self.user_defined_topic_list == old(self).user_defined_topic_list,
                self.user_defined_topic_counter == old(self).user_defined_topic_counter,
                self.default_topic_qos == old(self).default_topic_qos,
                self.manual_liveliness_count == old(self).manual_liveliness_count,
                self.lease_duration == old(self).lease_duration,
                self.discovered_topic_list == old(self).discovered_topic_list,
                self.ignored_participants == old(self).ignored_participants,
                self.ignored_publications == old(self).ignored_publications,
                self.ignored_subcriptions == old(self).ignored_subcriptions,
                self.ignored_topic_list == old(self).ignored_topic_list,
                self.data_max_size_serialized == old(self).data_max_size_serialized,
                self.metatraffic_unicast_locator_list == old(self).metatraffic_unicast_locator_list,
                self.metatraffic_multicast_locator_list == old(self).metatraffic_multicast_locator_list,
                self.default_unicast_locator_list == old(self).default_unicast_locator_list,
                self.default_multicast_locator_list == old(self).default_multicast_locator_list,
                self.protocol_version == old(self).protocol_version,
                self.vendor_id == old(self).vendor_id,
                0 <= j <= pre.len(),
                i == pre.take(j).filter(pred).len(),
                i <= j,
                self.discovered_participant_list@ == pre.take(j).filter(pred) + pre.skip(j),
                pred == (|e: DiscoveredParticipantEntry| e.lease_deadline_sec >= now_sec),
            decreases self.discovered_participant_list@.len() - i,
        {
            proof {
                reveal(Seq::filter);
                pre.take(j).lemma_filter_len(pred);
                assert(j < pre.len());
                assert(self.discovered_participant_list@[i as int] == pre.skip(j)[0]);
                assert(pre.skip(j)[0] == pre[j]);
                assert(pre.take(j + 1).drop_last() =~= pre.take(j));
                assert(pre.take(j + 1).last() == pre[j]);
            }
            if self.discovered_participant_list[i].lease_deadline_sec < now_sec {
                self.discovered_participant_list.remove(i);
                proof {
                    assert(!pred(pre[j]));
                    assert(pre.take(j + 1).filter(pred) =~= pre.take(j).filter(pred));
                    assert(self.discovered_participant_list@ =~= pre.take(j + 1).filter(pred)
                        + pre.skip(j + 1));
                }
            } else {
                proof {
                    assert(pred(pre[j]));
                    assert(pre.take(j + 1).filter(pred) =~= pre.take(j).filter(pred).push(
                        pre[j],
                    ));
                    assert(self.discovered_participant_list@ =~= pre.take(j + 1).filter(pred)
                        + pre.skip(j + 1));
                }
                i = i + 1;
            }
            proof {
                j = j + 1;
            }
        }
        proof {
            assert(pre.take(pre.len() as int) =~= pre);
            assert(self.discovered_participant_list@ =~= pre.filter(pred));
            assert forall|k: int| 0 <= k < self.discovered_participant_list@.len()
                implies (#[trigger] self.discovered_participant_list@[k]).lease_deadline_sec
                    >= now_sec by {
                pre.lemma_filter_pred(pred, k);
            }
        }
    }

    /// The handles of the participants now discovered.
    pub fn get_discovered_participants(&self) -> (r: Vec<InstanceHandle>)
        ensures
            r@.len() == self.discovered_participant_list@.len(),
            forall|k: int| 0 <= k < r@.len()
                ==> #[trigger] r@[k] == self.discovered_participant_list@[k].handle,
    {
        let mut r: Vec<InstanceHandle> = Vec::new();
        let mut i: usize = 0;
        while i < self.discovered_participant_list.len()
            invariant
                0 <= i <= self.discovered_participant_list@.len(),
                r@.len() == i,
                forall|k: int| 0 <= k < i
                    ==> #[trigger] r@[k] == self.discovered_participant_list@[k].handle,
            decreases self.discovered_participant_list@.len() - i,
        {
            r.push(self.discovered_participant_list[i].handle);
            i = i + 1;
        }
        r
    }

    /// Whether a participant with this handle is discovered.
    pub fn has_discovered_participant(&self, handle: &InstanceHandle) -> (r: bool)
        ensures
            r == exists|k: int|
                0 <= k < self.discovered_participant_list@.len()
                    && (#[trigger] self.discovered_participant_list@[k]).handle.0@ == handle.0@,
    {
        let mut i: usize = 0;
        while i < self.discovered_participant_list.len()
            invariant
                0 <= i <= self.discovered_participant_list@.len(),
                forall|k: int| 0 <= k < i
                    ==> (#[trigger] self.discovered_participant_list@[k]).handle.0@
                        != handle.0@,
            decreases self.discovered_participant_list@.len() - i,
        {
            if crate::types::bytes_eq(&self.discovered_participant_list[i].handle.0, &handle.0) {
                return true;
            }
            i = i + 1;
        }
        false
    }
}

/// The seconds of a lease: a bounded lease gives its seconds, an unbounded
/// one a practically unreachable deadline.
pub open spec fn spec_lease_seconds(lease: DurationKind) -> int {
    match lease {
        DurationKind::Finite(d) => d.seconds as int,
        DurationKind::Infinite => 0x7fff_ffff,
    }
}


/// The announcement names an ignored participant or an ignored endpoint.
pub open spec fn spec_writer_announcement_ignored(
    p: DomainParticipantActor,
    d: DiscoveredWriterData,
) -> bool {
    ||| spec_handle_list_has(
        p.ignored_participants@,
        spec_participant_handle_bytes(d.remote_writer_guid.prefix),
    )
    ||| spec_handle_list_has(p.ignored_publications@, d.dds_publication_data.key.0@)
}

/// The announcement names an ignored participant or an ignored endpoint.
pub open spec fn spec_reader_announcement_ignored(
    p: DomainParticipantActor,
    d: DiscoveredReaderData,
) -> bool {
    ||| spec_handle_list_has(
        p.ignored_participants@,
        spec_participant_handle_bytes(d.remote_reader_guid.prefix),
    )
    ||| spec_handle_list_has(p.ignored_subcriptions@, d.dds_subscription_data.key.0@)
}

/// The writer's participant is discovered.
pub open spec fn spec_writer_participant_known(
    p: DomainParticipantActor,
    d: DiscoveredWriterData,
) -> bool {
    exists|k: int|
        0 <= k < p.discovered_participant_list@.len()
            && (#[trigger] p.discovered_participant_list@[k]).handle.0@
            == spec_participant_handle_bytes(d.remote_writer_guid.prefix)
}

/// The reader's participant is discovered.
pub open spec fn spec_reader_participant_known(
    p: DomainParticipantActor,
    d: DiscoveredReaderData,
) -> bool {
    exists|k: int|
        0 <= k < p.discovered_participant_list@.len()
            && (#[trigger] p.discovered_participant_list@[k]).handle.0@
            == spec_participant_handle_bytes(d.remote_reader_guid.prefix)
}

impl DomainParticipantActor {
    /// The handle that names the participant a prefix belongs to.
    fn participant_handle_of_prefix(prefix: &GuidPrefix) -> (r: InstanceHandle)
        ensures
            r.0@ == spec_participant_handle_bytes(*prefix),
    {
        InstanceHandle::from_guid(
            &GUID {
                prefix: *prefix,
                entity_id: EntityId {
                    entity_key: [0, 0, 0x01],
                    entity_kind: crate::types::BUILT_IN_PARTICIPANT,
                },
            },
        )
    }

    /// Whether this handle is on the given ignore list.
    fn handle_list_has(list: &Vec<InstanceHandle>, handle: &InstanceHandle) -> (r: bool)
        ensures
            r == spec_handle_list_has(list@, handle.0@),
    {
        let mut i: usize = 0;
        while i < list.len()
            invariant
                0 <= i <= list@.len(),
                forall|k: int| 0 <= k < i ==> (#[trigger] list@[k]).0@ != handle.0@,
            decreases list@.len() - i,
        {
            if crate::types::bytes_eq(&list[i].0, &handle.0) {
                return true;
            }
            i = i + 1;
        }
        false
    }

    /// Record or refresh one discovered topic under its handle.
    fn record_discovered_topic(&mut self, handle: InstanceHandle, topic_data: TopicBuiltinTopicData)
        ensures
            *final(self) == (DomainParticipantActor {
                discovered_topic_list: final(self).discovered_topic_list,
                ..*old(self)
            }),
            spec_topic_recorded(
                old(self).discovered_topic_list@,
                final(self).discovered_topic_list@,
                handle,
                topic_data.name@,
                topic_data.data_type_name@,
            ),
    {
        let ghost name_view = topic_data.name@;
        let ghost type_view = topic_data.data_type_name@;
        let mut i: usize = 0;
        while i < self.discovered_topic_list.len()
            invariant
                *self == *old(self),
                0 <= i <= self.discovered_topic_list@.len(),
                forall|k: int| 0 <= k < i
                    ==> (#[trigger] self.discovered_topic_list@[k]).0.0@ != handle.0@,
            decreases self.discovered_topic_list@.len() - i,
        {
            if crate::types::bytes_eq(&self.discovered_topic_list[i].0.0, &handle.0) {
                let ghost pre = self.discovered_topic_list@;
                self.discovered_topic_list.set(i, (handle, topic_data));
                proof {
                    let post = self.discovered_topic_list@;
                    assert(pre[i as int].0.0@ == handle.0@);
                    assert(post[i as int].0.0@ == handle.0@);
                    assert forall|m: int| 0 <= m < pre.len() && m != i as int
                        implies post[m] == #[trigger] pre[m] by {}
                }
                return ;
            }
            i = i + 1;
        }
        let ghost pre = self.discovered_topic_list@;
        self.discovered_topic_list.push((handle, topic_data));
        proof {
            assert(self.discovered_topic_list@.take(pre.len() as int) =~= pre);
        }
    }

    /// The index of the discovered participant with this handle, if any.
    fn find_discovered_participant(&self, handle: &InstanceHandle) -> (r: Option<usize>)
        ensures
            match r {
                Option::Some(k) => 0 <= k < self.discovered_participant_list@.len()
                    && self.discovered_participant_list@[k as int].handle.0@ == handle.0@,
                Option::None => forall|k: int| 0 <= k < self.discovered_participant_list@.len()
                    ==> (#[trigger] self.discovered_participant_list@[k]).handle.0@
                        != handle.0@,
            },
    {
        let mut i: usize = 0;
        while i < self.discovered_participant_list.len()
            invariant
                0 <= i <= self.discovered_participant_list@.len(),
                forall|k: int| 0 <= k < i
                    ==> (#[trigger] self.discovered_participant_list@[k]).handle.0@
                        != handle.0@,
            decreases self.discovered_participant_list@.len() - i,
        {
            if crate::types::bytes_eq(&self.discovered_participant_list[i].handle.0, &handle.0) {
                return Option::Some(i);
            }
            i = i + 1;
        }
        Option::None
    }

    /// Offer one discovered writer to every reader of every subscriber.
    ///
    /// An announcement of an ignored participant or publication, or of a
    /// writer whose participant is not discovered, changes nothing. A
    /// matched writer becomes reachable at its announced locators, or at
    /// the discovered participant's default locators where the announcement
    /// names none.
    pub fn add_matched_writer(&mut self, discovered_writer_data: &DiscoveredWriterData)
        requires
            old(self).wf(),
            forall|s: int, k: int|
                0 <= s < old(self).user_defined_subscriber_list@.len() && 0 <= k
                    < (#[trigger] old(self).user_defined_subscriber_list@[s]).data_readers@.len()
                    ==> {
                    &&& (#[trigger] old(self).user_defined_subscriber_list@[s].data_readers@[
                        k
                    ]).subscription_matched.total_count < 0x7fff_ffff
                    &&& old(self).user_defined_subscriber_list@[s].data_readers@[
                        k
                    ].requested_incompatible_qos.total_count < 0x7fff_ffff
                },
        ensures
            final(self).wf(),
            *final(self) == (DomainParticipantActor {
                user_defined_subscriber_list: final(self).user_defined_subscriber_list,
                discovered_topic_list: final(self).discovered_topic_list,
                ..*old(self)
            }),
            (spec_writer_announcement_ignored(*old(self), *discovered_writer_data)
                || !spec_writer_participant_known(*old(self), *discovered_writer_data)) ==> *final(self) == *old(self),
            !(spec_writer_announcement_ignored(*old(self), *discovered_writer_data)
                || !spec_writer_participant_known(*old(self), *discovered_writer_data)) ==> {
                &&& final(self).user_defined_subscriber_list@.len() == old(self).user_defined_subscriber_list@.len()
                &&& spec_topic_recorded(
                    old(self).discovered_topic_list@,
                    final(self).discovered_topic_list@,
                    discovered_writer_data.dds_publication_data.key,
                    discovered_writer_data.dds_publication_data.topic_name@,
                    discovered_writer_data.dds_publication_data.data_type_name@,
                )
                &&& exists|e: int|
                    {
                        &&& 0 <= e < old(self).discovered_participant_list@.len()
                        &&& (#[trigger] old(self).discovered_participant_list@[e]).handle.0@
                            == spec_participant_handle_bytes(
                            discovered_writer_data.remote_writer_guid.prefix,
                        )
                        &&& forall|s: int, k: int|
                            0 <= s < old(self).user_defined_subscriber_list@.len() && 0 <= k < (
                            #[trigger] old(self).user_defined_subscriber_list@[
                                s
                            ]).data_readers@.len()
                                ==> crate::data_reader::spec_add_matched_writer_rel(
                                #[trigger] old(self).user_defined_subscriber_list@[
                                    s
                                ].data_readers@[k],
                                final(self).user_defined_subscriber_list@[s].data_readers@[k],
                                *discovered_writer_data,
                                old(self).discovered_participant_list@[
                                    e
                                ].data.participant_proxy.default_unicast_locator_list@,
                                old(self).discovered_participant_list@[
                                    e
                                ].data.participant_proxy.default_multicast_locator_list@,
                            )
                    }
            },
    {
        let participant_handle = Self::participant_handle_of_prefix(
            &discovered_writer_data.remote_writer_guid.prefix,
        );
        let is_participant_ignored = Self::handle_list_has(
            &self.ignored_participants,
            &participant_handle,
        );
        let is_publication_ignored = Self::handle_list_has(
            &self.ignored_publications,
            &discovered_writer_data.dds_publication_data.key,
        );
        if is_participant_ignored || is_publication_ignored {
            return ;
        }
        let e = match self.find_discovered_participant(&participant_handle) {
            Option::Some(e) => e,
            Option::None => {
                return ;
            },
        };
        let default_unicast = clone_locator_list(
            &self.discovered_participant_list[e].data.participant_proxy
                .default_unicast_locator_list,
        );
        let default_multicast = clone_locator_list(
            &self.discovered_participant_list[e].data.participant_proxy
                .default_multicast_locator_list,
        );
        let mut s: usize = 0;
        let ghost pre = self.user_defined_subscriber_list@;
        while s < self.user_defined_subscriber_list.len()
            invariant
                old(self).wf(),
                pre == old(self).user_defined_subscriber_list@,
                0 <= e < old(self).discovered_participant_list@.len(),
                default_unicast@ == old(self).discovered_participant_list@[
                    e as int
                ].data.participant_proxy.default_unicast_locator_list@,
                default_multicast@ == old(self).discovered_participant_list@[
                    e as int
                ].data.participant_proxy.default_multicast_locator_list@,
                forall|m: int, k: int|
                    0 <= m < pre.len() && 0 <= k < (#[trigger] pre[m]).data_readers@.len()
                        ==> {
                        &&& (#[trigger] pre[m].data_readers@[
                            k
                        ]).subscription_matched.total_count < 0x7fff_ffff
                        &&& pre[m].data_readers@[k].requested_incompatible_qos.total_count
                            < 0x7fff_ffff
                    },
                self.guid == old(self).guid,
                self.domain_id == old(self).domain_id,
                self.domain_tag == old(self).domain_tag,
                self.qos == old(self).qos,
                self.enabled == old(self).enabled,
                self.spdp_builtin_participant_writer == old(self).spdp_builtin_participant_writer,
                self.spdp_builtin_participant_reader == old(self).spdp_builtin_participant_reader,
                self.sedp_builtin_topics_announcer == old(self).sedp_builtin_topics_announcer,
                self.sedp_builtin_topics_detector == old(self).sedp_builtin_topics_detector,
                self.sedp_builtin_publications_announcer == old(self).sedp_builtin_publications_announcer,
                self.sedp_builtin_publications_detector == old(self).sedp_builtin_publications_detector,
                self.sedp_builtin_subscriptions_announcer == old(self).sedp_builtin_subscriptions_announcer,
                self.sedp_builtin_subscriptions_detector == old(self).sedp_builtin_subscriptions_detector,
                self.user_defined_publisher_list == old(self).user_defined_publisher_list,
                self.user_defined_publisher_counter == old(self).user_defined_publisher_counter,
                self.default_publisher_qos == old(self).default_publisher_qos,
                self.user_defined_subscriber_counter == old(self).user_defined_subscriber_counter,
                self.default_subscriber_qos == old(self).default_subscriber_qos,
                self.user_defined_topic_list == old(self).user_defined_topic_list,
                self.user_defined_topic_counter == old(self).user_defined_topic_counter,
                self.default_topic_qos == old(self).default_topic_qos,
                self.manual_liveliness_count == old(self).manual_liveliness_count,
                self.lease_duration == old(self).lease_duration,
                self.discovered_participant_list == old(self).discovered_participant_list,
                self.discovered_topic_list == old(self).discovered_topic_list,
                self.ignored_participants == old(self).ignored_participants,
                self.ignored_publications == old(self).ignored_publications,
                self.ignored_subcriptions == old(self).ignored_subcriptions,
                self.ignored_topic_list == old(self).ignored_topic_list,
                self.data_max_size_serialized == old(self).data_max_size_serialized,
                self.metatraffic_unicast_locator_list == old(self).metatraffic_unicast_locator_list,
                self.metatraffic_multicast_locator_list == old(self).metatraffic_multicast_locator_list,
                self.default_unicast_locator_list == old(self).default_unicast_locator_list,
                self.default_multicast_locator_list == old(self).default_multicast_locator_list,
                self.protocol_version == old(self).protocol_version,
                self.vendor_id == old(self).vendor_id,
                0 <= s <= self.user_defined_subscriber_list@.len(),
                self.user_defined_subscriber_list@.len() == pre.len(),
                forall|m: int| 0 <= m < s ==> {
                    &&& (#[trigger] self.user_defined_subscriber_list@[m]).data_readers@.len()
                        == pre[m].data_readers@.len()
                    &&& forall|k: int| 0 <= k < pre[m].data_readers@.len()
                        ==> crate::data_reader::spec_add_matched_writer_rel(
                            #[trigger] pre[m].data_readers@[k],
                            self.user_defined_subscriber_list@[m].data_readers@[k],
                            *discovered_writer_data,
                            default_unicast@,
                            default_multicast@,
                        )
                },
                forall|m: int| s <= m < pre.len()
                    ==> #[trigger] self.user_defined_subscriber_list@[m] == pre[m],
                forall|m: int| 0 <= m < self.user_defined_subscriber_list@.len()
                    ==> (#[trigger] self.user_defined_subscriber_list@[m]).wf(),
            decreases self.user_defined_subscriber_list@.len() - s,
        {
            let subscriber = &mut mut_subscriber_at(&mut self.user_defined_subscriber_list, s);
            subscriber.add_matched_writer(
                discovered_writer_data,
                &default_unicast,
                &default_multicast,
            );
            s = s + 1;
        }
        let writer_topic = TopicBuiltinTopicData {
            key: InstanceHandle([0; 16]),
            name: clone_string(&discovered_writer_data.dds_publication_data.topic_name),
            data_type_name: clone_string(
                &discovered_writer_data.dds_publication_data.data_type_name,
            ),
            qos: TopicQos {
                topic_data: crate::qos::TopicDataQosPolicy { value: Vec::new() },
                durability: discovered_writer_data.dds_publication_data.qos.durability,
                deadline: discovered_writer_data.dds_publication_data.qos.deadline,
                latency_budget: discovered_writer_data.dds_publication_data.qos.latency_budget,
                liveliness: discovered_writer_data.dds_publication_data.qos.liveliness,
                reliability: discovered_writer_data.dds_publication_data.qos.reliability,
                destination_order:
                    discovered_writer_data.dds_publication_data.qos.destination_order,
                history: crate::qos::HistoryQosPolicy {
                    kind: HistoryQosPolicyKind::KeepLast(1),
                },
                resource_limits: crate::qos::ResourceLimitsQosPolicy {
                    max_samples: LengthKind::Unlimited,
                    max_instances: LengthKind::Unlimited,
                    max_samples_per_instance: LengthKind::Unlimited,
                },
                transport_priority: crate::qos::TransportPriorityQosPolicy { value: 0 },
                lifespan: discovered_writer_data.dds_publication_data.qos.lifespan,
                ownership: discovered_writer_data.dds_publication_data.qos.ownership,
            },
        };
        self.record_discovered_topic(
            discovered_writer_data.dds_publication_data.key,
            writer_topic,
        );
        proof {
            assert(old(self).discovered_participant_list@[e as int].handle.0@
                == spec_participant_handle_bytes(
                discovered_writer_data.remote_writer_guid.prefix,
            ));
        }
    }

    /// Withdraw one departed writer from every reader of every subscriber.
    pub fn remove_matched_writer(&mut self, writer_guid: &GUID)
        requires
            old(self).wf(),
        ensures
            final(self).wf(),
            *final(self) == (DomainParticipantActor {
                user_defined_subscriber_list: final(self).user_defined_subscriber_list,
                ..*old(self)
            }),
            final(self).user_defined_subscriber_list@.len() == old(self).user_defined_subscriber_list@.len(),
            forall|s: int, k: int|
                0 <= s < old(self).user_defined_subscriber_list@.len() && 0 <= k < (
                #[trigger] old(self).user_defined_subscriber_list@[s]).data_readers@.len()
                    ==> crate::data_reader::spec_remove_matched_writer_rel(
                    #[trigger] old(self).user_defined_subscriber_list@[s].data_readers@[k],
                    final(self).user_defined_subscriber_list@[s].data_readers@[k],
                    *writer_guid,
                ),
    {
        let mut s: usize = 0;
        let ghost pre = self.user_defined_subscriber_list@;
        while s < self.user_defined_subscriber_list.len()
            invariant
                old(self).wf(),
                pre == old(self).user_defined_subscriber_list@,
                self.guid == old(self).guid,
                self.domain_id == old(self).domain_id,
                self.domain_tag == old(self).domain_tag,
                self.qos == old(self).qos,
                self.enabled == old(self).enabled,
                self.spdp_builtin_participant_writer == old(self).spdp_builtin_participant_writer,
                self.spdp_builtin_participant_reader == old(self).spdp_builtin_participant_reader,
                self.sedp_builtin_topics_announcer == old(self).sedp_builtin_topics_announcer,
                self.sedp_builtin_topics_detector == old(self).sedp_builtin_topics_detector,
                self.sedp_builtin_publications_announcer == old(self).sedp_builtin_publications_announcer,
                self.sedp_builtin_publications_detector == old(self).sedp_builtin_publications_detector,
                self.sedp_builtin_subscriptions_announcer == old(self).sedp_builtin_subscriptions_announcer,
                self.sedp_builtin_subscriptions_detector == old(self).sedp_builtin_subscriptions_detector,
                self.user_defined_publisher_list == old(self).user_defined_publisher_list,
                self.user_defined_publisher_counter == old(self).user_defined_publisher_counter,
                self.default_publisher_qos == old(self).default_publisher_qos,
                self.user_defined_subscriber_counter == old(self).user_defined_subscriber_counter,
                self.default_subscriber_qos == old(self).default_subscriber_qos,
                self.user_defined_topic_list == old(self).user_defined_topic_list,
                self.user_defined_topic_counter == old(self).user_defined_topic_counter,
                self.default_topic_qos == old(self).default_topic_qos,
                self.manual_liveliness_count == old(self).manual_liveliness_count,
                self.lease_duration == old(self).lease_duration,
                self.discovered_participant_list == old(self).discovered_participant_list,
                self.discovered_topic_list == old(self).discovered_topic_list,
                self.ignored_participants == old(self).ignored_participants,
                self.ignored_publications == old(self).ignored_publications,
                self.ignored_subcriptions == old(self).ignored_subcriptions,
                self.ignored_topic_list == old(self).ignored_topic_list,
                self.data_max_size_serialized == old(self).data_max_size_serialized,
                self.metatraffic_unicast_locator_list == old(self).metatraffic_unicast_locator_list,
                self.metatraffic_multicast_locator_list == old(self).metatraffic_multicast_locator_list,
                self.default_unicast_locator_list == old(self).default_unicast_locator_list,
                self.default_multicast_locator_list == old(self).default_multicast_locator_list,
                self.protocol_version == old(self).protocol_version,
                self.vendor_id == old(self).vendor_id,
                0 <= s <= self.user_defined_subscriber_list@.len(),
                self.user_defined_subscriber_list@.len() == pre.len(),
                forall|m: int| 0 <= m < s ==> {
                    &&& (#[trigger] self.user_defined_subscriber_list@[m]).data_readers@.len()
                        == pre[m].data_readers@.len()
                    &&& forall|k: int| 0 <= k < pre[m].data_readers@.len()
                        ==> crate::data_reader::spec_remove_matched_writer_rel(
                            #[trigger] pre[m].data_readers@[k],
                            self.user_defined_subscriber_list@[m].data_readers@[k],
                            *writer_guid,
                        )
                },
                forall|m: int| s <= m < pre.len()
                    ==> #[trigger] self.user_defined_subscriber_list@[m] == pre[m],
                forall|m: int| 0 <= m < self.user_defined_subscriber_list@.len()
                    ==> (#[trigger] self.user_defined_subscriber_list@[m]).wf(),
            decreases self.user_defined_subscriber_list@.len() - s,
        {
            let subscriber = &mut mut_subscriber_at(&mut self.user_defined_subscriber_list, s);
            subscriber.remove_matched_writer(writer_guid);
            s = s + 1;
        }
    }
}

/// A mutable borrow of the subscriber at one index.
fn mut_subscriber_at(subscribers: &mut Vec<Subscriber>, i: usize) -> (r: &mut Subscriber)
    requires
        i < old(subscribers)@.len(),
    ensures
        *r == old(subscribers)@[i as int],
        final(subscribers)@ == old(subscribers)@.update(i as int, *final(r)),
{
    &mut subscribers[i]
}


impl DomainParticipantActor {
    /// Offer one discovered reader to every writer of every publisher.
    ///
    /// An announcement of an ignored participant or subscription, or of a
    /// reader whose participant is not discovered, changes nothing.
    pub fn add_matched_reader(&mut self, discovered_reader_data: &DiscoveredReaderData)
        requires
            old(self).wf(),
            forall|s: int, k: int|
                0 <= s < old(self).user_defined_publisher_list@.len() && 0 <= k
                    < (#[trigger] old(self).user_defined_publisher_list@[s]).data_writers@.len()
                    ==> {
                    &&& (#[trigger] old(self).user_defined_publisher_list@[s].data_writers@[
                        k
                    ]).publication_matched.total_count < 0x7fff_ffff
                    &&& old(self).user_defined_publisher_list@[s].data_writers@[
                        k
                    ].offered_incompatible_qos.total_count < 0x7fff_ffff
                },
        ensures
            final(self).wf(),
            *final(self) == (DomainParticipantActor {
                user_defined_publisher_list: final(self).user_defined_publisher_list,
                discovered_topic_list: final(self).discovered_topic_list,
                ..*old(self)
            }),
            (spec_reader_announcement_ignored(*old(self), *discovered_reader_data)
                || !spec_reader_participant_known(*old(self), *discovered_reader_data)) ==> *final(self) == *old(self),
            !(spec_reader_announcement_ignored(*old(self), *discovered_reader_data)
                || !spec_reader_participant_known(*old(self), *discovered_reader_data)) ==> {
                &&& final(self).user_defined_publisher_list@.len() == old(self).user_defined_publisher_list@.len()
                &&& spec_topic_recorded(
                    old(self).discovered_topic_list@,
                    final(self).discovered_topic_list@,
                    discovered_reader_data.dds_subscription_data.key,
                    discovered_reader_data.dds_subscription_data.topic_name@,
                    discovered_reader_data.dds_subscription_data.data_type_name@,
                )
                &&& exists|e: int|
                    {
                        &&& 0 <= e < old(self).discovered_participant_list@.len()
                        &&& (#[trigger] old(self).discovered_participant_list@[e]).handle.0@
                            == spec_participant_handle_bytes(
                            discovered_reader_data.remote_reader_guid.prefix,
                        )
                        &&& forall|s: int, k: int|
                            0 <= s < old(self).user_defined_publisher_list@.len() && 0 <= k < (
                            #[trigger] old(self).user_defined_publisher_list@[
                                s
                            ]).data_writers@.len()
                                ==> crate::data_writer::spec_add_matched_reader_rel(
                                #[trigger] old(self).user_defined_publisher_list@[
                                    s
                                ].data_writers@[k],
                                final(self).user_defined_publisher_list@[s].data_writers@[k],
                                *discovered_reader_data,
                                old(self).discovered_participant_list@[
                                    e
                                ].data.participant_proxy.default_unicast_locator_list@,
                                old(self).discovered_participant_list@[
                                    e
                                ].data.participant_proxy.default_multicast_locator_list@,
                            )
                    }
            },
    {
        let participant_handle = Self::participant_handle_of_prefix(
            &discovered_reader_data.remote_reader_guid.prefix,
        );
        let is_participant_ignored = Self::handle_list_has(
            &self.ignored_participants,
            &participant_handle,
        );
        let is_subscription_ignored = Self::handle_list_has(
            &self.ignored_subcriptions,
            &discovered_reader_data.dds_subscription_data.key,
        );
        if is_participant_ignored || is_subscription_ignored {
            return ;
        }
        let e = match self.find_discovered_participant(&participant_handle) {
            Option::Some(e) => e,
            Option::None => {
                return ;
            },
        };
        let default_unicast = clone_locator_list(
            &self.discovered_participant_list[e].data.participant_proxy
                .default_unicast_locator_list,
        );
        let default_multicast = clone_locator_list(
            &self.discovered_participant_list[e].data.participant_proxy
                .default_multicast_locator_list,
        );
        let mut s: usize = 0;
        let ghost pre = self.user_defined_publisher_list@;
        while s < self.user_defined_publisher_list.len()
            invariant
                old(self).wf(),
                pre == old(self).user_defined_publisher_list@,
                0 <= e < old(self).discovered_participant_list@.len(),
                default_unicast@ == old(self).discovered_participant_list@[
                    e as int
                ].data.participant_proxy.default_unicast_locator_list@,
                default_multicast@ == old(self).discovered_participant_list@[
                    e as int
                ].data.participant_proxy.default_multicast_locator_list@,
                forall|m: int, k: int|
                    0 <= m < pre.len() && 0 <= k < (#[trigger] pre[m]).data_writers@.len() ==> {
                        &&& (#[trigger] pre[m].data_writers@[
                            k
                        ]).publication_matched.total_count < 0x7fff_ffff
                        &&& pre[m].data_writers@[k].offered_incompatible_qos.total_count
                            < 0x7fff_ffff
                    },
                self.guid == old(self).guid,
                self.domain_id == old(self).domain_id,
                self.domain_tag == old(self).domain_tag,
                self.qos == old(self).qos,
                self.enabled == old(self).enabled,
                self.spdp_builtin_participant_writer == old(self).spdp_builtin_participant_writer,
                self.spdp_builtin_participant_reader == old(self).spdp_builtin_participant_reader,
                self.sedp_builtin_topics_announcer == old(self).sedp_builtin_topics_announcer,
                self.sedp_builtin_topics_detector == old(self).sedp_builtin_topics_detector,
                self.sedp_builtin_publications_announcer == old(self).sedp_builtin_publications_announcer,
                self.sedp_builtin_publications_detector == old(self).sedp_builtin_publications_detector,
                self.sedp_builtin_subscriptions_announcer == old(self).sedp_builtin_subscriptions_announcer,
                self.sedp_builtin_subscriptions_detector == old(self).sedp_builtin_subscriptions_detector,
                self.user_defined_subscriber_list == old(self).user_defined_subscriber_list,
                self.user_defined_publisher_counter == old(self).user_defined_publisher_counter,
                self.default_publisher_qos == old(self).default_publisher_qos,
                self.user_defined_subscriber_counter == old(self).user_defined_subscriber_counter,
                self.default_subscriber_qos == old(self).default_subscriber_qos,
                self.user_defined_topic_list == old(self).user_defined_topic_list,
                self.user_defined_topic_counter == old(self).user_defined_topic_counter,
                self.default_topic_qos == old(self).default_topic_qos,
                self.manual_liveliness_count == old(self).manual_liveliness_count,
                self.lease_duration == old(self).lease_duration,
                self.discovered_participant_list == old(self).discovered_participant_list,
                self.discovered_topic_list == old(self).discovered_topic_list,
                self.ignored_participants == old(self).ignored_participants,
                self.ignored_publications == old(self).ignored_publications,
                self.ignored_subcriptions == old(self).ignored_subcriptions,
                self.ignored_topic_list == old(self).ignored_topic_list,
                self.data_max_size_serialized == old(self).data_max_size_serialized,
                self.metatraffic_unicast_locator_list == old(self).metatraffic_unicast_locator_list,
                self.metatraffic_multicast_locator_list == old(self).metatraffic_multicast_locator_list,
                self.default_unicast_locator_list == old(self).default_unicast_locator_list,
                self.default_multicast_locator_list == old(self).default_multicast_locator_list,
                self.protocol_version == old(self).protocol_version,
                self.vendor_id == old(self).vendor_id,
                0 <= s <= self.user_defined_publisher_list@.len(),
                self.user_defined_publisher_list@.len() == pre.len(),
                forall|m: int| 0 <= m < s ==> {
                    &&& (#[trigger] self.user_defined_publisher_list@[m]).data_writers@.len()
                        == pre[m].data_writers@.len()
                    &&& forall|k: int| 0 <= k < pre[m].data_writers@.len()
                        ==> crate::data_writer::spec_add_matched_reader_rel(
                            #[trigger] pre[m].data_writers@[k],
                            self.user_defined_publisher_list@[m].data_writers@[k],
                            *discovered_reader_data,
                            default_unicast@,
                            default_multicast@,
                        )
                },
                forall|m: int| s <= m < pre.len()
                    ==> #[trigger] self.user_defined_publisher_list@[m] == pre[m],
                forall|m: int| 0 <= m < self.user_defined_publisher_list@.len()
                    ==> (#[trigger] self.user_defined_publisher_list@[m]).wf(),
            decreases self.user_defined_publisher_list@.len() - s,
        {
            let publisher = &mut mut_publisher_at(&mut self.user_defined_publisher_list, s);
            publisher.add_matched_reader(
                discovered_reader_data,
                &default_unicast,
                &default_multicast,
            );
            s = s + 1;
        }
        let reader_topic = TopicBuiltinTopicData {
            key: InstanceHandle([0; 16]),
            name: clone_string(&discovered_reader_data.dds_subscription_data.topic_name),
            data_type_name: clone_string(
                &discovered_reader_data.dds_subscription_data.data_type_name,
            ),
            qos: TopicQos {
                topic_data: crate::qos::TopicDataQosPolicy { value: Vec::new() },
                durability: discovered_reader_data.dds_subscription_data.qos.durability,
                deadline: discovered_reader_data.dds_subscription_data.qos.deadline,
                latency_budget: discovered_reader_data.dds_subscription_data.qos.latency_budget,
                liveliness: discovered_reader_data.dds_subscription_data.qos.liveliness,
                reliability: discovered_reader_data.dds_subscription_data.qos.reliability,
                destination_order:
                    discovered_reader_data.dds_subscription_data.qos.destination_order,
                history: crate::qos::HistoryQosPolicy {
                    kind: HistoryQosPolicyKind::KeepLast(1),
                },
                resource_limits: crate::qos::ResourceLimitsQosPolicy {
                    max_samples: LengthKind::Unlimited,
                    max_instances: LengthKind::Unlimited,
                    max_samples_per_instance: LengthKind::Unlimited,
                },
                transport_priority: crate::qos::TransportPriorityQosPolicy { value: 0 },
                lifespan: crate::qos::LifespanQosPolicy { duration: DurationKind::Infinite },
                ownership: discovered_reader_data.dds_subscription_data.qos.ownership,
            },
        };
        self.record_discovered_topic(
            discovered_reader_data.dds_subscription_data.key,
            reader_topic,
        );
        proof {
            assert(old(self).discovered_participant_list@[e as int].handle.0@
                == spec_participant_handle_bytes(
                discovered_reader_data.remote_reader_guid.prefix,
            ));
        }
    }

    /// Withdraw one departed reader from every writer of every publisher.
    pub fn remove_matched_reader(&mut self, reader_guid: &GUID)
        requires
            old(self).wf(),
        ensures
            final(self).wf(),
            *final(self) == (DomainParticipantActor {
                user_defined_publisher_list: final(self).user_defined_publisher_list,
                ..*old(self)
            }),
            final(self).user_defined_publisher_list@.len() == old(self).user_defined_publisher_list@.len(),
            forall|s: int, k: int|
                0 <= s < old(self).user_defined_publisher_list@.len() && 0 <= k < (
                #[trigger] old(self).user_defined_publisher_list@[s]).data_writers@.len()
                    ==> crate::data_writer::spec_remove_matched_reader_rel(
                    #[trigger] old(self).user_defined_publisher_list@[s].data_writers@[k],
                    final(self).user_defined_publisher_list@[s].data_writers@[k],
                    *reader_guid,
                ),
    {
        let mut s: usize = 0;
        let ghost pre = self.user_defined_publisher_list@;
        while s < self.user_defined_publisher_list.len()
            invariant
                old(self).wf(),
                pre == old(self).user_defined_publisher_list@,
                self.guid == old(self).guid,
                self.domain_id == old(self).domain_id,
                self.domain_tag == old(self).domain_tag,
                self.qos == old(self).qos,
                self.enabled == old(self).enabled,
                self.spdp_builtin_participant_writer == old(self).spdp_builtin_participant_writer,
                self.spdp_builtin_participant_reader == old(self).spdp_builtin_participant_reader,
                self.sedp_builtin_topics_announcer == old(self).sedp_builtin_topics_announcer,
                self.sedp_builtin_topics_detector == old(self).sedp_builtin_topics_detector,
                self.sedp_builtin_publications_announcer == old(self).sedp_builtin_publications_announcer,
                self.sedp_builtin_publications_detector == old(self).sedp_builtin_publications_detector,
                self.sedp_builtin_subscriptions_announcer == old(self).sedp_builtin_subscriptions_announcer,
                self.sedp_builtin_subscriptions_detector == old(self).sedp_builtin_subscriptions_detector,
                self.user_defined_subscriber_list == old(self).user_defined_subscriber_list,
                self.user_defined_publisher_counter == old(self).user_defined_publisher_counter,
                self.default_publisher_qos == old(self).default_publisher_qos,
                self.user_defined_subscriber_counter == old(self).user_defined_subscriber_counter,
                self.default_subscriber_qos == old(self).default_subscriber_qos,
                self.user_defined_topic_list == old(self).user_defined_topic_list,
                self.user_defined_topic_counter == old(self).user_defined_topic_counter,
                self.default_topic_qos == old(self).default_topic_qos,
                self.manual_liveliness_count == old(self).manual_liveliness_count,
                self.lease_duration == old(self).lease_duration,
                self.discovered_participant_list == old(self).discovered_participant_list,
                self.discovered_topic_list == old(self).discovered_topic_list,
                self.ignored_participants == old(self).ignored_participants,
                self.ignored_publications == old(self).ignored_publications,
                self.ignored_subcriptions == old(self).ignored_subcriptions,
                self.ignored_topic_list == old(self).ignored_topic_list,
                self.data_max_size_serialized == old(self).data_max_size_serialized,
                self.metatraffic_unicast_locator_list == old(self).metatraffic_unicast_locator_list,
                self.metatraffic_multicast_locator_list == old(self).metatraffic_multicast_locator_list,
                self.default_unicast_locator_list == old(self).default_unicast_locator_list,
                self.default_multicast_locator_list == old(self).default_multicast_locator_list,
                self.protocol_version == old(self).protocol_version,
                self.vendor_id == old(self).vendor_id,
                0 <= s <= self.user_defined_publisher_list@.len(),
                self.user_defined_publisher_list@.len() == pre.len(),
                forall|m: int| 0 <= m < s ==> {
                    &&& (#[trigger] self.user_defined_publisher_list@[m]).data_writers@.len()
                        == pre[m].data_writers@.len()
                    &&& forall|k: int| 0 <= k < pre[m].data_writers@.len()
                        ==> crate::data_writer::spec_remove_matched_reader_rel(
                            #[trigger] pre[m].data_writers@[k],
                            self.user_defined_publisher_list@[m].data_writers@[k],
                            *reader_guid,
                        )
                },
                forall|m: int| s <= m < pre.len()
                    ==> #[trigger] self.user_defined_publisher_list@[m] == pre[m],
                forall|m: int| 0 <= m < self.user_defined_publisher_list@.len()
                    ==> (#[trigger] self.user_defined_publisher_list@[m]).wf(),
            decreases self.user_defined_publisher_list@.len() - s,
        {
            let publisher = &mut mut_publisher_at(&mut self.user_defined_publisher_list, s);
            publisher.remove_matched_reader(reader_guid);
            s = s + 1;
        }
    }
}

/// A mutable borrow of the publisher at one index.
fn mut_publisher_at(publishers: &mut Vec<Publisher>, i: usize) -> (r: &mut Publisher)
    requires
        i < old(publishers)@.len(),
    ensures
        *r == old(publishers)@[i as int],
        final(publishers)@ == old(publishers)@.update(i as int, *final(r)),
{
    &mut publishers[i]
}


impl DomainParticipantActor {
    /// Process one publications-discovery sample.
    ///
    /// A live sample offers the writer to every local reader; a disposed one
    /// withdraws the writer named by the sample's instance handle. Samples
    /// of a no-writers instance do not occur in discovery.
    pub fn process_sedp_publications_discovery(
        &mut self,
        discovered_writer_data: &DiscoveredWriterData,
        instance_state: InstanceStateKind,
    )
        requires
            old(self).wf(),
            instance_state != InstanceStateKind::NotAliveNoWriters,
            forall|s: int, k: int|
                0 <= s < old(self).user_defined_subscriber_list@.len() && 0 <= k
                    < (#[trigger] old(self).user_defined_subscriber_list@[s]).data_readers@.len()
                    ==> {
                    &&& (#[trigger] old(self).user_defined_subscriber_list@[s].data_readers@[
                        k
                    ]).subscription_matched.total_count < 0x7fff_ffff
                    &&& old(self).user_defined_subscriber_list@[s].data_readers@[
                        k
                    ].requested_incompatible_qos.total_count < 0x7fff_ffff
                },
        ensures
            final(self).wf(),
            *final(self) == (DomainParticipantActor {
                user_defined_subscriber_list: final(self).user_defined_subscriber_list,
                discovered_topic_list: final(self).discovered_topic_list,
                ..*old(self)
            }),
            instance_state != InstanceStateKind::Alive ==> final(self).discovered_topic_list
                == old(self).discovered_topic_list,
            instance_state == InstanceStateKind::Alive
                && !(spec_writer_announcement_ignored(*old(self), *discovered_writer_data)
                || !spec_writer_participant_known(*old(self), *discovered_writer_data)) ==> {
                &&& final(self).user_defined_subscriber_list@.len() == old(self).user_defined_subscriber_list@.len()
                &&& exists|e: int|
                    {
                        &&& 0 <= e < old(self).discovered_participant_list@.len()
                        &&& (#[trigger] old(self).discovered_participant_list@[e]).handle.0@
                            == spec_participant_handle_bytes(
                            discovered_writer_data.remote_writer_guid.prefix,
                        )
                        &&& forall|s: int, k: int|
                            0 <= s < old(self).user_defined_subscriber_list@.len() && 0 <= k < (
                            #[trigger] old(self).user_defined_subscriber_list@[
                                s
                            ]).data_readers@.len()
                                ==> crate::data_reader::spec_add_matched_writer_rel(
                                #[trigger] old(self).user_defined_subscriber_list@[
                                    s
                                ].data_readers@[k],
                                final(self).user_defined_subscriber_list@[s].data_readers@[k],
                                *discovered_writer_data,
                                old(self).discovered_participant_list@[
                                    e
                                ].data.participant_proxy.default_unicast_locator_list@,
                                old(self).discovered_participant_list@[
                                    e
                                ].data.participant_proxy.default_multicast_locator_list@,
                            )
                    }
            },
            instance_state == InstanceStateKind::NotAliveDisposed ==> forall|s: int, k: int|
                0 <= s < old(self).user_defined_subscriber_list@.len() && 0 <= k < (
                #[trigger] old(self).user_defined_subscriber_list@[s]).data_readers@.len()
                    ==> crate::data_reader::spec_remove_matched_writer_rel(
                    #[trigger] old(self).user_defined_subscriber_list@[s].data_readers@[k],
                    final(self).user_defined_subscriber_list@[s].data_readers@[k],
                    discovered_writer_data.remote_writer_guid,
                ),
    {
        match instance_state {
            InstanceStateKind::Alive => {
                self.add_matched_writer(discovered_writer_data);
            },
            InstanceStateKind::NotAliveDisposed => {
                self.remove_matched_writer(&discovered_writer_data.remote_writer_guid);
            },
            InstanceStateKind::NotAliveNoWriters => {},
        }
    }

    /// Process one subscriptions-discovery sample.
    ///
    /// A live sample offers the reader to every local writer; a disposed one
    /// withdraws the reader named by the sample's instance handle.
    pub fn process_sedp_subscriptions_discovery(
        &mut self,
        discovered_reader_data: &DiscoveredReaderData,
        instance_state: InstanceStateKind,
    )
        requires
            old(self).wf(),
            instance_state != InstanceStateKind::NotAliveNoWriters,
            forall|s: int, k: int|
                0 <= s < old(self).user_defined_publisher_list@.len() && 0 <= k
                    < (#[trigger] old(self).user_defined_publisher_list@[s]).data_writers@.len()
                    ==> {
                    &&& (#[trigger] old(self).user_defined_publisher_list@[s].data_writers@[
                        k
                    ]).publication_matched.total_count < 0x7fff_ffff
                    &&& old(self).user_defined_publisher_list@[s].data_writers@[
                        k
                    ].offered_incompatible_qos.total_count < 0x7fff_ffff
                },
        ensures
            final(self).wf(),
            *final(self) == (DomainParticipantActor {
                user_defined_publisher_list: final(self).user_defined_publisher_list,
                discovered_topic_list: final(self).discovered_topic_list,
                ..*old(self)
            }),
            instance_state != InstanceStateKind::Alive ==> final(self).discovered_topic_list
                == old(self).discovered_topic_list,
            instance_state == InstanceStateKind::Alive
                && !(spec_reader_announcement_ignored(*old(self), *discovered_reader_data)
                || !spec_reader_participant_known(*old(self), *discovered_reader_data)) ==> {
                &&& final(self).user_defined_publisher_list@.len() == old(self).user_defined_publisher_list@.len()
                &&& exists|e: int|
                    {
                        &&& 0 <= e < old(self).discovered_participant_list@.len()
                        &&& (#[trigger] old(self).discovered_participant_list@[e]).handle.0@
                            == spec_participant_handle_bytes(
                            discovered_reader_data.remote_reader_guid.prefix,
                        )
                        &&& forall|s: int, k: int|
                            0 <= s < old(self).user_defined_publisher_list@.len() && 0 <= k < (
                            #[trigger] old(self).user_defined_publisher_list@[
                                s
                            ]).data_writers@.len()
                                ==> crate::data_writer::spec_add_matched_reader_rel(
                                #[trigger] old(self).user_defined_publisher_list@[
                                    s
                                ].data_writers@[k],
                                final(self).user_defined_publisher_list@[s].data_writers@[k],
                                *discovered_reader_data,
                                old(self).discovered_participant_list@[
                                    e
                                ].data.participant_proxy.default_unicast_locator_list@,
                                old(self).discovered_participant_list@[
                                    e
                                ].data.participant_proxy.default_multicast_locator_list@,
                            )
                    }
            },
            instance_state == InstanceStateKind::NotAliveDisposed ==> forall|s: int, k: int|
                0 <= s < old(self).user_defined_publisher_list@.len() && 0 <= k < (
                #[trigger] old(self).user_defined_publisher_list@[s]).data_writers@.len()
                    ==> crate::data_writer::spec_remove_matched_reader_rel(
                    #[trigger] old(self).user_defined_publisher_list@[s].data_writers@[k],
                    final(self).user_defined_publisher_list@[s].data_writers@[k],
                    discovered_reader_data.remote_reader_guid,
                ),
    {
        match instance_state {
            InstanceStateKind::Alive => {
                self.add_matched_reader(discovered_reader_data);
            },
            InstanceStateKind::NotAliveDisposed => {
                self.remove_matched_reader(&discovered_reader_data.remote_reader_guid);
            },
            InstanceStateKind::NotAliveNoWriters => {},
        }
    }

    /// Record one discovered topic, unless its handle is ignored.
    pub fn add_matched_topic(
        &mut self,
        handle: InstanceHandle,
        topic_data: TopicBuiltinTopicData,
    )
        requires
            old(self).wf(),
        ensures
            final(self).wf(),
            *final(self) == (DomainParticipantActor {
                discovered_topic_list: final(self).discovered_topic_list,
                ..*old(self)
            }),
            spec_handle_list_has(old(self).ignored_topic_list@, handle.0@) ==> final(self).discovered_topic_list == old(self).discovered_topic_list,
            !spec_handle_list_has(old(self).ignored_topic_list@, handle.0@) ==> {
                &&& final(self).discovered_topic_list@.len() == old(self).discovered_topic_list@.len() + 1
                &&& final(self).discovered_topic_list@.take(old(self).discovered_topic_list@.len() as int) == old(self).discovered_topic_list@
                &&& final(self).discovered_topic_list@.last().0 == handle
            },
    {
        let is_topic_ignored = Self::handle_list_has(&self.ignored_topic_list, &handle);
        if !is_topic_ignored {
            let ghost pre = self.discovered_topic_list@;
            self.discovered_topic_list.push((handle, topic_data));
            proof {
                assert(self.discovered_topic_list@.take(pre.len() as int) =~= pre);
            }
        }
    }

    /// Process one topics-discovery sample.
    pub fn process_sedp_topics_discovery(
        &mut self,
        handle: InstanceHandle,
        topic_data: TopicBuiltinTopicData,
    )
        requires
            old(self).wf(),
        ensures
            final(self).wf(),
            *final(self) == (DomainParticipantActor {
                discovered_topic_list: final(self).discovered_topic_list,
                ..*old(self)
            }),
            !spec_handle_list_has(old(self).ignored_topic_list@, handle.0@) ==> final(self).discovered_topic_list@.len() == old(self).discovered_topic_list@.len() + 1,
    {
        self.add_matched_topic(handle, topic_data);
    }

    /// Announce a created or changed local writer through the publications
    /// announcer.
    pub fn announce_created_or_modified_data_writer(
        &mut self,
        serialized_data: Vec<u8>,
        instance_handle: InstanceHandle,
    ) -> (r: Result<(), DdsError>)
        requires
            old(self).wf(),
            old(self).sedp_builtin_publications_announcer.last_change_sequence_number
                < 0x7fff_ffff_ffff_ffff,
        ensures
            final(self).wf(),
            *final(self) == (DomainParticipantActor {
                sedp_builtin_publications_announcer: final(self).sedp_builtin_publications_announcer,
                ..*old(self)
            }),
            r is Ok,
            spec_announced(
                old(self).sedp_builtin_publications_announcer,
                final(self).sedp_builtin_publications_announcer,
                crate::types::ChangeKind::Alive,
                serialized_data@,
                instance_handle,
            ),
    {
        let change = self.sedp_builtin_publications_announcer.new_change(
            crate::types::ChangeKind::Alive,
            serialized_data,
            Vec::new(),
            instance_handle,
        );
        let r = self.sedp_builtin_publications_announcer.writer_cache.add_change(change);
        match r {
            Ok(()) => Ok(()),
            Err(e) => {
                proof {
                    assert(false);
                }
                Err(e)
            },
        }
    }

    /// Announce a deleted local writer through the publications announcer.
    pub fn announce_deleted_data_writer(
        &mut self,
        instance_serialized_key: Vec<u8>,
        writer_handle: InstanceHandle,
    ) -> (r: Result<(), DdsError>)
        requires
            old(self).wf(),
            old(self).sedp_builtin_publications_announcer.last_change_sequence_number
                < 0x7fff_ffff_ffff_ffff,
        ensures
            final(self).wf(),
            *final(self) == (DomainParticipantActor {
                sedp_builtin_publications_announcer: final(self).sedp_builtin_publications_announcer,
                ..*old(self)
            }),
            r is Ok,
            spec_announced(
                old(self).sedp_builtin_publications_announcer,
                final(self).sedp_builtin_publications_announcer,
                crate::types::ChangeKind::NotAliveDisposed,
                instance_serialized_key@,
                writer_handle,
            ),
    {
        let change = self.sedp_builtin_publications_announcer.new_change(
            crate::types::ChangeKind::NotAliveDisposed,
            instance_serialized_key,
            Vec::new(),
            writer_handle,
        );
        let r = self.sedp_builtin_publications_announcer.writer_cache.add_change(change);
        match r {
            Ok(()) => Ok(()),
            Err(e) => {
                proof {
                    assert(false);
                }
                Err(e)
            },
        }
    }

    /// Announce a created or changed local reader through the subscriptions
    /// announcer.
    pub fn announce_created_or_modified_data_reader(
        &mut self,
        serialized_data: Vec<u8>,
        instance_handle: InstanceHandle,
    ) -> (r: Result<(), DdsError>)
        requires
            old(self).wf(),
            old(self).sedp_builtin_subscriptions_announcer.last_change_sequence_number
                < 0x7fff_ffff_ffff_ffff,
        ensures
            final(self).wf(),
            *final(self) == (DomainParticipantActor {
                sedp_builtin_subscriptions_announcer: final(self).sedp_builtin_subscriptions_announcer,
                ..*old(self)
            }),
            r is Ok,
            spec_announced(
                old(self).sedp_builtin_subscriptions_announcer,
                final(self).sedp_builtin_subscriptions_announcer,
                crate::types::ChangeKind::Alive,
                serialized_data@,
                instance_handle,
            ),
    {
        let change = self.sedp_builtin_subscriptions_announcer.new_change(
            crate::types::ChangeKind::Alive,
            serialized_data,
            Vec::new(),
            instance_handle,
        );
        let r = self.sedp_builtin_subscriptions_announcer.writer_cache.add_change(change);
        match r {
            Ok(()) => Ok(()),
            Err(e) => {
                proof {
                    assert(false);
                }
                Err(e)
            },
        }
    }

    /// Announce a deleted local reader through the subscriptions announcer.
    pub fn announce_deleted_data_reader(
        &mut self,
        instance_serialized_key: Vec<u8>,
        reader_handle: InstanceHandle,
    ) -> (r: Result<(), DdsError>)
        requires
            old(self).wf(),
            old(self).sedp_builtin_subscriptions_announcer.last_change_sequence_number
                < 0x7fff_ffff_ffff_ffff,
        ensures
            final(self).wf(),
            *final(self) == (DomainParticipantActor {
                sedp_builtin_subscriptions_announcer: final(self).sedp_builtin_subscriptions_announcer,
                ..*old(self)
            }),
            r is Ok,
            spec_announced(
                old(self).sedp_builtin_subscriptions_announcer,
                final(self).sedp_builtin_subscriptions_announcer,
                crate::types::ChangeKind::NotAliveDisposed,
                instance_serialized_key@,
                reader_handle,
            ),
    {
        let change = self.sedp_builtin_subscriptions_announcer.new_change(
            crate::types::ChangeKind::NotAliveDisposed,
            instance_serialized_key,
            Vec::new(),
            reader_handle,
        );
        let r = self.sedp_builtin_subscriptions_announcer.writer_cache.add_change(change);
        match r {
            Ok(()) => Ok(()),
            Err(e) => {
                proof {
                    assert(false);
                }
                Err(e)
            },
        }
    }

    /// The participant's own announcement, as sent in participant discovery.
    ///
    /// The announcement carries the participant's identity, its own
    /// policies' application bytes, its protocol version and vendor, all
    /// four of its locator lists and its lease.
    pub fn as_spdp_discovered_participant_data(&self) -> (r: SpdpDiscoveredParticipantData)
        ensures
            r.dds_participant_data.key.0@ == self.guid.spec_to_bytes(),
            r.dds_participant_data.qos.user_data.value@ == self.qos.user_data.value@,
            r.participant_proxy.domain_id == Option::Some(self.domain_id),
            r.participant_proxy.domain_tag@ == self.domain_tag@,
            r.participant_proxy.protocol_version == self.protocol_version,
            r.participant_proxy.guid_prefix == self.guid.prefix,
            r.participant_proxy.vendor_id == self.vendor_id,
            !r.participant_proxy.expects_inline_qos,
            r.participant_proxy.metatraffic_unicast_locator_list@
                == self.metatraffic_unicast_locator_list@,
            r.participant_proxy.metatraffic_multicast_locator_list@
                == self.metatraffic_multicast_locator_list@,
            r.participant_proxy.default_unicast_locator_list@
                == self.default_unicast_locator_list@,
            r.participant_proxy.default_multicast_locator_list@
                == self.default_multicast_locator_list@,
            r.participant_proxy.available_builtin_endpoints
                == crate::discovery::spec_default_builtin_endpoints(),
            r.participant_proxy.manual_liveliness_count == self.manual_liveliness_count,
            r.lease_duration == self.lease_duration,
    {
        let key = self.get_instance_handle();
        SpdpDiscoveredParticipantData {
            dds_participant_data: ParticipantBuiltinTopicData {
                key,
                qos: crate::qos::DomainParticipantQos {
                    user_data: crate::qos::UserDataQosPolicy {
                        value: clone_bytes(&self.qos.user_data.value),
                    },
                },
            },
            participant_proxy: ParticipantProxy {
                domain_id: Option::Some(self.domain_id),
                domain_tag: clone_string(&self.domain_tag),
                protocol_version: self.protocol_version,
                guid_prefix: self.guid.prefix,
                vendor_id: self.vendor_id,
                expects_inline_qos: false,
                metatraffic_unicast_locator_list: clone_locator_list(
                    &self.metatraffic_unicast_locator_list,
                ),
                metatraffic_multicast_locator_list: clone_locator_list(
                    &self.metatraffic_multicast_locator_list,
                ),
                default_unicast_locator_list: clone_locator_list(
                    &self.default_unicast_locator_list,
                ),
                default_multicast_locator_list: clone_locator_list(
                    &self.default_multicast_locator_list,
                ),
                available_builtin_endpoints: Default::default(),
                manual_liveliness_count: self.manual_liveliness_count,
            },
            lease_duration: self.lease_duration,
        }
    }

    /// Set the default policies for publishers created later.
    pub fn set_default_publisher_qos(&mut self, qos: QosKind<PublisherQos>) -> (r: Result<
        (),
        DdsError,
    >)
        ensures
            r is Ok,
            *final(self) == (DomainParticipantActor {
                default_publisher_qos: final(self).default_publisher_qos,
                ..*old(self)
            }),
            match qos {
                QosKind::Default => final(self).default_publisher_qos.partition.name@.len() == 0,
                QosKind::Specific(q) => final(self).default_publisher_qos == q,
            },
    {
        match qos {
            QosKind::Default => {
                self.default_publisher_qos = Default::default();
            },
            QosKind::Specific(q) => {
                self.default_publisher_qos = q;
            },
        }
        Ok(())
    }

    /// The default policies for publishers created later.
    pub fn get_default_publisher_qos(&self) -> (r: &PublisherQos)
        ensures
            r == self.default_publisher_qos,
    {
        &self.default_publisher_qos
    }

    /// Set the default policies for subscribers created later.
    pub fn set_default_subscriber_qos(&mut self, qos: QosKind<SubscriberQos>) -> (r: Result<
        (),
        DdsError,
    >)
        ensures
            r is Ok,
            *final(self) == (DomainParticipantActor {
                default_subscriber_qos: final(self).default_subscriber_qos,
                ..*old(self)
            }),
            match qos {
                QosKind::Default => final(self).default_subscriber_qos.partition.name@.len() == 0,
                QosKind::Specific(q) => final(self).default_subscriber_qos == q,
            },
    {
        match qos {
            QosKind::Default => {
                self.default_subscriber_qos = Default::default();
            },
            QosKind::Specific(q) => {
                self.default_subscriber_qos = q;
            },
        }
        Ok(())
    }

    /// The default policies for subscribers created later.
    pub fn get_default_subscriber_qos(&self) -> (r: &SubscriberQos)
        ensures
            r == self.default_subscriber_qos,
    {
        &self.default_subscriber_qos
    }

    /// Set the default policies for topics created later.
    ///
    /// The factory values come back with `Default`; inconsistent specific
    /// policies are refused and change nothing.
    pub fn set_default_topic_qos(&mut self, qos: QosKind<TopicQos>) -> (r: Result<(), DdsError>)
        ensures
            r is Err <==> (qos matches QosKind::Specific(q)
                && !(crate::qos::spec_history_consistent(q.history)
                && crate::qos::spec_resource_limits_consistent(q.resource_limits))),
            match r {
                Ok(()) => {
                    &&& *final(self) == (DomainParticipantActor {
                        default_topic_qos: final(self).default_topic_qos,
                        ..*old(self)
                    })
                    &&& (match qos {
                        QosKind::Default => crate::qos::spec_is_default_topic_qos(
                            final(self).default_topic_qos,
                        ),
                        QosKind::Specific(q) => final(self).default_topic_qos == q,
                    })
                },
                Err(e) => {
                    &&& e == DdsError::InconsistentPolicy
                    &&& *final(self) == *old(self)
                },
            },
    {
        match qos {
            QosKind::Default => {
                self.default_topic_qos = Default::default();
                Ok(())
            },
            QosKind::Specific(q) => {
                let check = q.is_consistent();
                match check {
                    Ok(()) => {
                        self.default_topic_qos = q;
                        Ok(())
                    },
                    Err(e) => Err(e),
                }
            },
        }
    }

    /// The default policies for topics created later.
    pub fn get_default_topic_qos(&self) -> (r: &TopicQos)
        ensures
            r == self.default_topic_qos,
    {
        &self.default_topic_qos
    }

    /// The handles of the topics now discovered.
    pub fn get_discovered_topics(&self) -> (r: Vec<InstanceHandle>)
        ensures
            r@.len() == self.discovered_topic_list@.len(),
            forall|k: int| 0 <= k < r@.len()
                ==> #[trigger] r@[k] == self.discovered_topic_list@[k].0,
    {
        let mut r: Vec<InstanceHandle> = Vec::new();
        let mut i: usize = 0;
        while i < self.discovered_topic_list.len()
            invariant
                0 <= i <= self.discovered_topic_list@.len(),
                r@.len() == i,
                forall|k: int| 0 <= k < i ==> #[trigger] r@[k]
                    == self.discovered_topic_list@[k].0,
            decreases self.discovered_topic_list@.len() - i,
        {
            r.push(self.discovered_topic_list[i].0);
            i = i + 1;
        }
        r
    }

    /// Create a topic owned by this participant.
    pub fn create_user_defined_topic(
        &mut self,
        topic_name: String,
        a_type_name: String,
        qos: TopicQos,
    ) -> (r: InstanceHandle)
        requires
            old(self).wf(),
            old(self).user_defined_topic_counter < 255,
        ensures
            final(self).wf(),
            final(self).user_defined_topic_list@.len() == old(self).user_defined_topic_list@.len() + 1,
            final(self).user_defined_topic_list@.take(old(self).user_defined_topic_list@.len() as int) == old(self).user_defined_topic_list@,
            ({
                let t = final(self).user_defined_topic_list@.last();
                &&& t.guid.prefix == old(self).guid.prefix
                &&& t.guid.entity_id == (EntityId {
                    entity_key: [old(self).user_defined_topic_counter, 0, 0],
                    entity_kind: USER_DEFINED_TOPIC,
                })
                &&& t.name@ == topic_name@
                &&& t.data_type_name@ == a_type_name@
                &&& r.0@ == t.guid.spec_to_bytes()
            }),
    {
        let counter = self.create_unique_topic_id();
        let entity_id = EntityId { entity_key: [counter, 0, 0], entity_kind: USER_DEFINED_TOPIC };
        let topic_guid = GUID { prefix: self.guid.prefix, entity_id };
        let handle = InstanceHandle::from_guid(&topic_guid);
        let entry = Topic {
            guid: topic_guid,
            name: topic_name,
            data_type_name: a_type_name,
            qos,
        };
        let ghost pre = self.user_defined_topic_list@;
        self.user_defined_topic_list.push(entry);
        proof {
            assert(self.user_defined_topic_list@.take(pre.len() as int) =~= pre);
        }
        handle
    }

    /// The topic of this participant with the given name, if one exists.
    pub fn lookup_topicdescription(&self, topic_name: &String) -> (r: Option<InstanceHandle>)
        ensures
            match r {
                Option::Some(handle) => exists|k: int|
                    0 <= k < self.user_defined_topic_list@.len()
                        && (#[trigger] self.user_defined_topic_list@[k]).name@ == topic_name@
                        && handle.0@ == self.user_defined_topic_list@[k].guid.spec_to_bytes(),
                Option::None => forall|k: int| 0 <= k < self.user_defined_topic_list@.len()
                    ==> (#[trigger] self.user_defined_topic_list@[k]).name@ != topic_name@,
            },
    {
        let mut i: usize = 0;
        while i < self.user_defined_topic_list.len()
            invariant
                0 <= i <= self.user_defined_topic_list@.len(),
                forall|k: int| 0 <= k < i
                    ==> (#[trigger] self.user_defined_topic_list@[k]).name@ != topic_name@,
            decreases self.user_defined_topic_list@.len() - i,
        {
            if crate::data_reader::string_eq(&self.user_defined_topic_list[i].name, topic_name) {
                return Option::Some(
                    InstanceHandle::from_guid(&self.user_defined_topic_list[i].guid),
                );
            }
            i = i + 1;
        }
        Option::None
    }
}

/// A writer of the announcer took a change of this kind, payload and
/// instance under its history policy.
pub open spec fn spec_announced(
    pre: StatefulWriter,
    post: StatefulWriter,
    kind: crate::types::ChangeKind,
    payload: Seq<u8>,
    handle: InstanceHandle,
) -> bool {
    &&& post.last_change_sequence_number == pre.last_change_sequence_number + 1
    &&& exists|c: crate::history_cache::CacheChange|
        {
            &&& #[trigger] c.kind == kind
            &&& c.writer_guid == pre.guid
            &&& c.instance_handle == handle
            &&& c.sequence_number.spec_value() == pre.last_change_sequence_number + 1
            &&& c.data_value.0@ == payload
            &&& crate::reader::spec_cache_took(pre.writer_cache, post.writer_cache, c)
        }
}

/// Copy a string.
pub fn clone_string(s: &String) -> (r: String)
    ensures
        r@ == s@,
{
    s.clone()
}


/// Copy a locator list.
pub fn clone_locator_list(v: &Vec<Locator>) -> (r: Vec<Locator>)
    ensures
        r@ == v@,
{
    let mut r: Vec<Locator> = Vec::new();
    let mut i: usize = 0;
    while i < v.len()
        invariant
            0 <= i <= v@.len(),
            r@ == v@.take(i as int),
        decreases v@.len() - i,
    {
        r.push(v[i]);
        i = i + 1;
        proof {
            assert(r@ =~= v@.take(i as int));
        }
    }
    proof {
        assert(r@ =~= v@);
    }
    r
}

/// Copy a byte vector.
pub fn clone_bytes(v: &Vec<u8>) -> (r: Vec<u8>)
    ensures
        r@ == v@,
{
    let mut r: Vec<u8> = Vec::new();
    let mut i: usize = 0;
    while i < v.len()
        invariant
            0 <= i <= v@.len(),
            r@ == v@.take(i as int),
        decreases v@.len() - i,
    {
        r.push(v[i]);
        i = i + 1;
        proof {
            assert(r@ =~= v@.take(i as int));
        }
    }
    proof {
        assert(r@ =~= v@);
    }
    r
}

} // verus!

//! Quality-of-service policies, their factory defaults, the self-consistency
//! check, the immutability check and the offered/requested compatibility
//! rules that decide whether a writer and a reader match.

use vstd::prelude::*;

use crate::error::DdsError;
use crate::types::Duration;

verus! {

/// Policy identifier of the durability policy in status reports.
pub const DURABILITY_QOS_POLICY_ID: i32 = 2;

/// Policy identifier of the deadline policy in status reports.
pub const DEADLINE_QOS_POLICY_ID: i32 = 4;

/// Policy identifier of the latency-budget policy in status reports.
pub const LATENCYBUDGET_QOS_POLICY_ID: i32 = 5;

/// Policy identifier of the ownership policy in status reports.
pub const OWNERSHIP_QOS_POLICY_ID: i32 = 6;

/// Policy identifier of the liveliness policy in status reports.
pub const LIVELINESS_QOS_POLICY_ID: i32 = 8;

/// Policy identifier of the reliability policy in status reports.
pub const RELIABILITY_QOS_POLICY_ID: i32 = 11;

/// Policy identifier of the destination-order policy in status reports.
pub const DESTINATIONORDER_QOS_POLICY_ID: i32 = 12;

/// A possibly unbounded span of time.
#[derive(Clone, Copy, Debug, PartialEq, Eq, Structural)]
pub enum DurationKind {
    /// A bounded span.
    Finite(Duration),
    /// Longer than every bounded span.
    Infinite,
}

/// The value of a duration in units of one 2^-32 second.
pub open spec fn spec_duration_value(d: Duration) -> int {
    d.seconds * 0x1_0000_0000 + d.fraction
}

/// Order on possibly unbounded spans: every bounded span is below infinite.
pub open spec fn spec_duration_kind_le(a: DurationKind, b: DurationKind) -> bool {
    match b {
        DurationKind::Infinite => true,
        DurationKind::Finite(db) => match a {
            DurationKind::Infinite => false,
            DurationKind::Finite(da) => spec_duration_value(da) <= spec_duration_value(db),
        },
    }
}

/// Compare two possibly unbounded spans.
pub fn duration_kind_le(a: &DurationKind, b: &DurationKind) -> (r: bool)
    ensures
        r == spec_duration_kind_le(*a, *b),
{
    match b {
        DurationKind::Infinite => true,
        DurationKind::Finite(db) => match a {
            DurationKind::Infinite => false,
            DurationKind::Finite(da) => {
                let va = (da.seconds as i64) * 0x1_0000_0000 + (da.fraction as i64);
                let vb = (db.seconds as i64) * 0x1_0000_0000 + (db.fraction as i64);
                va <= vb
            },
        },
    }
}

/// A zero-length span.
pub fn duration_zero() -> (r: DurationKind)
    ensures
        r == DurationKind::Finite(Duration { seconds: 0, fraction: 0 }),
{
    DurationKind::Finite(Duration { seconds: 0, fraction: 0 })
}

/// How long samples outlive their writing.
#[derive(Clone, Copy, Debug, PartialEq, Eq, Structural)]
pub enum DurabilityQosPolicyKind {
    /// Samples exist only while the writer does.
    Volatile,
    /// The writer keeps samples for late-joining readers.
    TransientLocal,
}

/// The durability policy.
#[derive(Clone, Copy, Debug, PartialEq, Eq, Structural)]
pub struct DurabilityQosPolicy {
    pub kind: DurabilityQosPolicyKind,
}

/// Rank of a durability kind for the compatibility order.
pub open spec fn spec_durability_rank(k: DurabilityQosPolicyKind) -> int {
    match k {
        DurabilityQosPolicyKind::Volatile => 0,
        DurabilityQosPolicyKind::TransientLocal => 1,
    }
}

/// The delivery contract policy.
#[derive(Clone, Copy, Debug, PartialEq, Eq, Structural)]
pub enum ReliabilityQosPolicyKind {
    /// Samples may be lost.
    BestEffort,
    /// Samples are retransmitted until acknowledged.
    Reliable,
}

/// Rank of a reliability kind for the compatibility order.
pub open spec fn spec_reliability_rank(k: ReliabilityQosPolicyKind) -> int {
    match k {
        ReliabilityQosPolicyKind::BestEffort => 0,
        ReliabilityQosPolicyKind::Reliable => 1,
    }
}

/// The reliability policy.
#[derive(Clone, Copy, Debug, PartialEq, Eq, Structural)]
pub struct ReliabilityQosPolicy {
    pub kind: ReliabilityQosPolicyKind,
    pub max_blocking_time: DurationKind,
}

/// How many samples per instance the history keeps.
#[derive(Clone, Copy, Debug, PartialEq, Eq, Structural)]
pub enum HistoryQosPolicyKind {
    /// Keep at most this many samples of each instance.
    KeepLast(u32),
    /// Keep every sample, subject to resource limits.
    KeepAll,
}

/// The history policy.
#[derive(Clone, Copy, Debug, PartialEq, Eq, Structural)]
pub struct HistoryQosPolicy {
    pub kind: HistoryQosPolicyKind,
}

/// A possibly unbounded count.
#[derive(Clone, Copy, Debug, PartialEq, Eq, Structural)]
pub enum LengthKind {
    /// At most this many.
    Limited(u32),
    /// No bound.
    Unlimited,
}

/// The resource-limits policy.
#[derive(Clone, Copy, Debug, PartialEq, Eq, Structural)]
pub struct ResourceLimitsQosPolicy {
    pub max_samples: LengthKind,
    pub max_instances: LengthKind,
    pub max_samples_per_instance: LengthKind,
}

/// The deadline policy: the longest tolerated gap between samples of one
/// instance.
#[derive(Clone, Copy, Debug, PartialEq, Eq, Structural)]
pub struct DeadlineQosPolicy {
    pub period: DurationKind,
}

/// The latency-budget policy: a delivery urgency hint.
#[derive(Clone, Copy, Debug, PartialEq, Eq, Structural)]
pub struct LatencyBudgetQosPolicy {
    pub duration: DurationKind,
}

/// How liveliness of a writer is asserted.
#[derive(Clone, Copy, Debug, PartialEq, Eq, Structural)]
pub enum LivelinessQosPolicyKind {
    /// The middleware asserts liveliness by itself.
    Automatic,
    /// Any writer of the participant asserting counts.
    ManualByParticipant,
    /// Only the writer itself asserting counts.
    ManualByTopic,
}

/// Rank of a liveliness kind for the compatibility order.
pub open spec fn spec_liveliness_rank(k: LivelinessQosPolicyKind) -> int {
    match k {
        LivelinessQosPolicyKind::Automatic => 0,
        LivelinessQosPolicyKind::ManualByParticipant => 1,
        LivelinessQosPolicyKind::ManualByTopic => 2,
    }
}

/// The liveliness policy.
#[derive(Clone, Copy, Debug, PartialEq, Eq, Structural)]
pub struct LivelinessQosPolicy {
    pub kind: LivelinessQosPolicyKind,
    pub lease_duration: DurationKind,
}

/// Who may write an instance.
#[derive(Clone, Copy, Debug, PartialEq, Eq, Structural)]
pub enum OwnershipQosPolicyKind {
    /// Every matched writer may update an instance.
    Shared,
    /// Only the strongest alive writer updates an instance.
    Exclusive,
}

/// The ownership policy.
#[derive(Clone, Copy, Debug, PartialEq, Eq, Structural)]
pub struct OwnershipQosPolicy {
    pub kind: OwnershipQosPolicyKind,
}

/// The strength used to arbitrate exclusive ownership.
#[derive(Clone, Copy, Debug, PartialEq, Eq, Structural)]
pub struct OwnershipStrengthQosPolicy {
    pub value: i32,
}

/// The order readers present samples of one instance in.
#[derive(Clone, Copy, Debug, PartialEq, Eq, Structural)]
pub enum DestinationOrderQosPolicyKind {
    /// Order by when the reader received them.
    ByReceptionTimestamp,
    /// Order by the writer's source timestamp.
    BySourceTimestamp,
}

/// Rank of a destination-order kind for the compatibility order.
pub open spec fn spec_destination_order_rank(k: DestinationOrderQosPolicyKind) -> int {
    match k {
        DestinationOrderQosPolicyKind::ByReceptionTimestamp => 0,
        DestinationOrderQosPolicyKind::BySourceTimestamp => 1,
    }
}

/// The destination-order policy.
#[derive(Clone, Copy, Debug, PartialEq, Eq, Structural)]
pub struct DestinationOrderQosPolicy {
    pub kind: DestinationOrderQosPolicyKind,
}

/// How long a sample stays valid after it is written.
#[derive(Clone, Copy, Debug, PartialEq, Eq, Structural)]
pub struct LifespanQosPolicy {
    pub duration: DurationKind,
}

/// The transport priority hint.
#[derive(Clone, Copy, Debug, PartialEq, Eq, Structural)]
pub struct TransportPriorityQosPolicy {
    pub value: i32,
}

/// Opaque application bytes attached to an entity.
#[derive(Clone, Debug)]
pub struct UserDataQosPolicy {
    pub value: Vec<u8>,
}

/// Opaque application bytes attached to a topic.
#[derive(Clone, Debug)]
pub struct TopicDataQosPolicy {
    pub value: Vec<u8>,
}

/// The partition names a publisher or subscriber belongs to.
#[derive(Clone, Debug)]
pub struct PartitionQosPolicy {
    pub name: Vec<String>,
}

/// Either the entity factory's default QoS or a caller-given one.
pub enum QosKind<T> {
    /// Use the factory default.
    Default,
    /// Use this value.
    Specific(T),
}

/// The policies of a data writer.
#[derive(Clone, Debug)]
pub struct DataWriterQos {
    pub durability: DurabilityQosPolicy,
    pub deadline: DeadlineQosPolicy,
    pub latency_budget: LatencyBudgetQosPolicy,
    pub liveliness: LivelinessQosPolicy,
    pub reliability: ReliabilityQosPolicy,
    pub destination_order: DestinationOrderQosPolicy,
    pub history: HistoryQosPolicy,
    pub resource_limits: ResourceLimitsQosPolicy,
    pub transport_priority: TransportPriorityQosPolicy,
    pub lifespan: LifespanQosPolicy,
    pub ownership: OwnershipQosPolicy,
    pub ownership_strength: OwnershipStrengthQosPolicy,
    pub user_data: UserDataQosPolicy,
}

/// The policies of a data reader.
#[derive(Clone, Debug)]
pub struct DataReaderQos {
    pub durability: DurabilityQosPolicy,
    pub deadline: DeadlineQosPolicy,
    pub latency_budget: LatencyBudgetQosPolicy,
    pub liveliness: LivelinessQosPolicy,
    pub reliability: ReliabilityQosPolicy,
    pub destination_order: DestinationOrderQosPolicy,
    pub history: HistoryQosPolicy,
    pub resource_limits: ResourceLimitsQosPolicy,
    pub ownership: OwnershipQosPolicy,
    pub user_data: UserDataQosPolicy,
}

/// The policies of a topic.
#[derive(Clone, Debug)]
pub struct TopicQos {
    pub topic_data: TopicDataQosPolicy,
    pub durability: DurabilityQosPolicy,
    pub deadline: DeadlineQosPolicy,
    pub latency_budget: LatencyBudgetQosPolicy,
    pub liveliness: LivelinessQosPolicy,
    pub reliability: ReliabilityQosPolicy,
    pub destination_order: DestinationOrderQosPolicy,
    pub history: HistoryQosPolicy,
    pub resource_limits: ResourceLimitsQosPolicy,
    pub transport_priority: TransportPriorityQosPolicy,
    pub lifespan: LifespanQosPolicy,
    pub ownership: OwnershipQosPolicy,
}

/// The policies of a publisher.
#[derive(Clone, Debug)]
pub struct PublisherQos {
    pub partition: PartitionQosPolicy,
}

/// The policies of a subscriber.
#[derive(Clone, Debug)]
pub struct SubscriberQos {
    pub partition: PartitionQosPolicy,
}

/// The policies of a domain participant.
#[derive(Clone, Debug)]
pub struct DomainParticipantQos {
    pub user_data: UserDataQosPolicy,
}


/// The factory default policies of a data writer.
pub open spec fn spec_is_default_data_writer_qos(q: DataWriterQos) -> bool {
    q.user_data.value@ == Seq::<u8>::empty() && q == DataWriterQos {
        durability: DurabilityQosPolicy { kind: DurabilityQosPolicyKind::Volatile },
        deadline: DeadlineQosPolicy { period: DurationKind::Infinite },
        latency_budget: LatencyBudgetQosPolicy {
            duration: DurationKind::Finite(Duration { seconds: 0, fraction: 0 }),
        },
        liveliness: LivelinessQosPolicy {
            kind: LivelinessQosPolicyKind::Automatic,
            lease_duration: DurationKind::Infinite,
        },
        reliability: ReliabilityQosPolicy {
            kind: ReliabilityQosPolicyKind::Reliable,
            max_blocking_time: DurationKind::Finite(Duration { seconds: 0, fraction: 100 }),
        },
        destination_order: DestinationOrderQosPolicy {
            kind: DestinationOrderQosPolicyKind::ByReceptionTimestamp,
        },
        history: HistoryQosPolicy { kind: HistoryQosPolicyKind::KeepLast(1) },
        resource_limits: ResourceLimitsQosPolicy {
            max_samples: LengthKind::Unlimited,
            max_instances: LengthKind::Unlimited,
            max_samples_per_instance: LengthKind::Unlimited,
        },
        transport_priority: TransportPriorityQosPolicy { value: 0 },
        lifespan: LifespanQosPolicy { duration: DurationKind::Infinite },
        ownership: OwnershipQosPolicy { kind: OwnershipQosPolicyKind::Shared },
        ownership_strength: OwnershipStrengthQosPolicy { value: 0 },
        user_data: q.user_data,
    }
}

impl Default for DataWriterQos {
    /// The factory default writer policies.
    fn default() -> (r: DataWriterQos)
        ensures
            spec_is_default_data_writer_qos(r),
    {
        let r = DataWriterQos {
            durability: DurabilityQosPolicy { kind: DurabilityQosPolicyKind::Volatile },
            deadline: DeadlineQosPolicy { period: DurationKind::Infinite },
            latency_budget: LatencyBudgetQosPolicy {
                duration: DurationKind::Finite(Duration { seconds: 0, fraction: 0 }),
            },
            liveliness: LivelinessQosPolicy {
                kind: LivelinessQosPolicyKind::Automatic,
                lease_duration: DurationKind::Infinite,
            },
            reliability: ReliabilityQosPolicy {
                kind: ReliabilityQosPolicyKind::Reliable,
                max_blocking_time: DurationKind::Finite(Duration { seconds: 0, fraction: 100 }),
            },
            destination_order: DestinationOrderQosPolicy {
                kind: DestinationOrderQosPolicyKind::ByReceptionTimestamp,
            },
            history: HistoryQosPolicy { kind: HistoryQosPolicyKind::KeepLast(1) },
            resource_limits: ResourceLimitsQosPolicy {
                max_samples: LengthKind::Unlimited,
                max_instances: LengthKind::Unlimited,
                max_samples_per_instance: LengthKind::Unlimited,
            },
            transport_priority: TransportPriorityQosPolicy { value: 0 },
            lifespan: LifespanQosPolicy { duration: DurationKind::Infinite },
            ownership: OwnershipQosPolicy { kind: OwnershipQosPolicyKind::Shared },
            ownership_strength: OwnershipStrengthQosPolicy { value: 0 },
            user_data: UserDataQosPolicy { value: Vec::new() },
        };
        assert(r.user_data.value@ =~= Seq::<u8>::empty());
        r
    }
}

/// The factory default policies of a data reader.
pub open spec fn spec_is_default_data_reader_qos(q: DataReaderQos) -> bool {
    q.user_data.value@ == Seq::<u8>::empty() && q == DataReaderQos {
        durability: DurabilityQosPolicy { kind: DurabilityQosPolicyKind::Volatile },
        deadline: DeadlineQosPolicy { period: DurationKind::Infinite },
        latency_budget: LatencyBudgetQosPolicy {
            duration: DurationKind::Finite(Duration { seconds: 0, fraction: 0 }),
        },
        liveliness: LivelinessQosPolicy {
            kind: LivelinessQosPolicyKind::Automatic,
            lease_duration: DurationKind::Infinite,
        },
        reliability: ReliabilityQosPolicy {
            kind: ReliabilityQosPolicyKind::BestEffort,
            max_blocking_time: DurationKind::Finite(Duration { seconds: 0, fraction: 100 }),
        },
        destination_order: DestinationOrderQosPolicy {
            kind: DestinationOrderQosPolicyKind::ByReceptionTimestamp,
        },
        history: HistoryQosPolicy { kind: HistoryQosPolicyKind::KeepLast(1) },
        resource_limits: ResourceLimitsQosPolicy {
            max_samples: LengthKind::Unlimited,
            max_instances: LengthKind::Unlimited,
            max_samples_per_instance: LengthKind::Unlimited,
        },
        ownership: OwnershipQosPolicy { kind: OwnershipQosPolicyKind::Shared },
        user_data: q.user_data,
    }
}

impl Default for DataReaderQos {
    /// The factory default reader policies.
    fn default() -> (r: DataReaderQos)
        ensures
            spec_is_default_data_reader_qos(r),
    {
        let r = DataReaderQos {
            durability: DurabilityQosPolicy { kind: DurabilityQosPolicyKind::Volatile },
            deadline: DeadlineQosPolicy { period: DurationKind::Infinite },
            latency_budget: LatencyBudgetQosPolicy {
                duration: DurationKind::Finite(Duration { seconds: 0, fraction: 0 }),
            },
            liveliness: LivelinessQosPolicy {
                kind: LivelinessQosPolicyKind::Automatic,
                lease_duration: DurationKind::Infinite,
            },
            reliability: ReliabilityQosPolicy {
                kind: ReliabilityQosPolicyKind::BestEffort,
                max_blocking_time: DurationKind::Finite(Duration { seconds: 0, fraction: 100 }),
            },
            destination_order: DestinationOrderQosPolicy {
                kind: DestinationOrderQosPolicyKind::ByReceptionTimestamp,
            },
            history: HistoryQosPolicy { kind: HistoryQosPolicyKind::KeepLast(1) },
            resource_limits: ResourceLimitsQosPolicy {
                max_samples: LengthKind::Unlimited,
                max_instances: LengthKind::Unlimited,
                max_samples_per_instance: LengthKind::Unlimited,
            },
            ownership: OwnershipQosPolicy { kind: OwnershipQosPolicyKind::Shared },
            user_data: UserDataQosPolicy { value: Vec::new() },
        };
        assert(r.user_data.value@ =~= Seq::<u8>::empty());
        r
    }
}

/// The factory default policies of a topic.
pub open spec fn spec_is_default_topic_qos(q: TopicQos) -> bool {
    q.topic_data.value@ == Seq::<u8>::empty() && q == TopicQos {
        topic_data: q.topic_data,
        durability: DurabilityQosPolicy { kind: DurabilityQosPolicyKind::Volatile },
        deadline: DeadlineQosPolicy { period: DurationKind::Infinite },
        latency_budget: LatencyBudgetQosPolicy {
            duration: DurationKind::Finite(Duration { seconds: 0, fraction: 0 }),
        },
        liveliness: LivelinessQosPolicy {
            kind: LivelinessQosPolicyKind::Automatic,
            lease_duration: DurationKind::Infinite,
        },
        reliability: ReliabilityQosPolicy {
            kind: ReliabilityQosPolicyKind::BestEffort,
            max_blocking_time: DurationKind::Finite(Duration { seconds: 0, fraction: 100 }),
        },
        destination_order: DestinationOrderQosPolicy {
            kind: DestinationOrderQosPolicyKind::ByReceptionTimestamp,
        },
        history: HistoryQosPolicy { kind: HistoryQosPolicyKind::KeepLast(1) },
        resource_limits: ResourceLimitsQosPolicy {
            max_samples: LengthKind::Unlimited,
            max_instances: LengthKind::Unlimited,
            max_samples_per_instance: LengthKind::Unlimited,
        },
        transport_priority: TransportPriorityQosPolicy { value: 0 },
        lifespan: LifespanQosPolicy { duration: DurationKind::Infinite },
        ownership: OwnershipQosPolicy { kind: OwnershipQosPolicyKind::Shared },
    }
}

impl Default for TopicQos {
    /// The factory default topic policies.
    fn default() -> (r: TopicQos)
        ensures
            spec_is_default_topic_qos(r),
    {
        let r = TopicQos {
            topic_data: TopicDataQosPolicy { value: Vec::new() },
            durability: DurabilityQosPolicy { kind: DurabilityQosPolicyKind::Volatile },
            deadline: DeadlineQosPolicy { period: DurationKind::Infinite },
            latency_budget: LatencyBudgetQosPolicy {
                duration: DurationKind::Finite(Duration { seconds: 0, fraction: 0 }),
            },
            liveliness: LivelinessQosPolicy {
                kind: LivelinessQosPolicyKind::Automatic,
                lease_duration: DurationKind::Infinite,
            },
            reliability: ReliabilityQosPolicy {
                kind: ReliabilityQosPolicyKind::BestEffort,
                max_blocking_time: DurationKind::Finite(Duration { seconds: 0, fraction: 100 }),
            },
            destination_order: DestinationOrderQosPolicy {
                kind: DestinationOrderQosPolicyKind::ByReceptionTimestamp,
            },
            history: HistoryQosPolicy { kind: HistoryQosPolicyKind::KeepLast(1) },
            resource_limits: ResourceLimitsQosPolicy {
                max_samples: LengthKind::Unlimited,
                max_instances: LengthKind::Unlimited,
                max_samples_per_instance: LengthKind::Unlimited,
            },
            transport_priority: TransportPriorityQosPolicy { value: 0 },
            lifespan: LifespanQosPolicy { duration: DurationKind::Infinite },
            ownership: OwnershipQosPolicy { kind: OwnershipQosPolicyKind::Shared },
        };
        assert(r.topic_data.value@ =~= Seq::<u8>::empty());
        r
    }
}

impl Default for PublisherQos {
    /// The factory default publisher policies.
    fn default() -> (r: PublisherQos)
        ensures
            r.partition.name@ == Seq::<String>::empty(),
    {
        let r = PublisherQos { partition: PartitionQosPolicy { name: Vec::new() } };
        assert(r.partition.name@ =~= Seq::<String>::empty());
        r
    }
}

impl Default for SubscriberQos {
    /// The factory default subscriber policies.
    fn default() -> (r: SubscriberQos)
        ensures
            r.partition.name@ == Seq::<String>::empty(),
    {
        let r = SubscriberQos { partition: PartitionQosPolicy { name: Vec::new() } };
        assert(r.partition.name@ =~= Seq::<String>::empty());
        r
    }
}

impl Default for DomainParticipantQos {
    /// The factory default participant policies.
    fn default() -> (r: DomainParticipantQos)
        ensures
            r.user_data.value@ == Seq::<u8>::empty(),
    {
        let r = DomainParticipantQos { user_data: UserDataQosPolicy { value: Vec::new() } };
        assert(r.user_data.value@ =~= Seq::<u8>::empty());
        r
    }
}

/// A history policy contradicts itself when it keeps a depth of zero.
pub open spec fn spec_history_consistent(h: HistoryQosPolicy) -> bool {
    match h.kind {
        HistoryQosPolicyKind::KeepLast(depth) => depth > 0,
        HistoryQosPolicyKind::KeepAll => true,
    }
}

/// Resource limits contradict themselves when fewer samples are allowed in
/// total than for one instance alone.
pub open spec fn spec_resource_limits_consistent(r: ResourceLimitsQosPolicy) -> bool {
    match (r.max_samples, r.max_samples_per_instance) {
        (LengthKind::Limited(total), LengthKind::Limited(per)) => per <= total,
        _ => true,
    }
}

/// Check a history policy and resource limits against each other.
fn check_history_and_limits(history: &HistoryQosPolicy, limits: &ResourceLimitsQosPolicy) -> (r:
    Result<(), DdsError>)
    ensures
        r is Ok <==> spec_history_consistent(*history) && spec_resource_limits_consistent(*limits),
        r is Err ==> r->Err_0 == DdsError::InconsistentPolicy,
{
    let history_ok = match history.kind {
        HistoryQosPolicyKind::KeepLast(depth) => depth > 0,
        HistoryQosPolicyKind::KeepAll => true,
    };
    let limits_ok = match (&limits.max_samples, &limits.max_samples_per_instance) {
        (LengthKind::Limited(total), LengthKind::Limited(per)) => per <= total,
        _ => true,
    };
    if history_ok && limits_ok {
        Ok(())
    } else {
        Err(DdsError::InconsistentPolicy)
    }
}

impl DataWriterQos {
    /// Reject a set of writer policies that contradicts itself.
    pub fn is_consistent(&self) -> (r: Result<(), DdsError>)
        ensures
            r is Ok <==> spec_history_consistent(self.history)
                && spec_resource_limits_consistent(self.resource_limits),
            r is Err ==> r->Err_0 == DdsError::InconsistentPolicy,
    {
        check_history_and_limits(&self.history, &self.resource_limits)
    }

    /// Reject a change to a policy that is frozen once the writer is enabled.
    pub fn check_immutability(&self, other: &DataWriterQos) -> (r: Result<(), DdsError>)
        ensures
            r is Ok <==> self.durability == other.durability
                && self.liveliness == other.liveliness
                && self.reliability.kind == other.reliability.kind
                && self.destination_order == other.destination_order
                && self.history == other.history
                && self.resource_limits == other.resource_limits
                && self.ownership == other.ownership,
            r is Err ==> r->Err_0 == DdsError::ImmutablePolicy,
    {
        if self.durability == other.durability && self.liveliness == other.liveliness
            && self.reliability.kind == other.reliability.kind
            && self.destination_order == other.destination_order
            && self.history == other.history && self.resource_limits == other.resource_limits
            && self.ownership == other.ownership {
            Ok(())
        } else {
            Err(DdsError::ImmutablePolicy)
        }
    }
}

impl DataReaderQos {
    /// Reject a set of reader policies that contradicts itself.
    pub fn is_consistent(&self) -> (r: Result<(), DdsError>)
        ensures
            r is Ok <==> spec_history_consistent(self.history)
                && spec_resource_limits_consistent(self.resource_limits),
            r is Err ==> r->Err_0 == DdsError::InconsistentPolicy,
    {
        check_history_and_limits(&self.history, &self.resource_limits)
    }

    /// Reject a change to a policy that is frozen once the reader is enabled.
    pub fn check_immutability(&self, other: &DataReaderQos) -> (r: Result<(), DdsError>)
        ensures
            r is Ok <==> self.durability == other.durability
                && self.liveliness == other.liveliness
                && self.reliability.kind == other.reliability.kind
                && self.destination_order == other.destination_order
                && self.history == other.history
                && self.resource_limits == other.resource_limits
                && self.ownership == other.ownership,
            r is Err ==> r->Err_0 == DdsError::ImmutablePolicy,
    {
        if self.durability == other.durability && self.liveliness == other.liveliness
            && self.reliability.kind == other.reliability.kind
            && self.destination_order == other.destination_order
            && self.history == other.history && self.resource_limits == other.resource_limits
            && self.ownership == other.ownership {
            Ok(())
        } else {
            Err(DdsError::ImmutablePolicy)
        }
    }
}

impl TopicQos {
    /// Reject a set of topic policies that contradicts itself.
    pub fn is_consistent(&self) -> (r: Result<(), DdsError>)
        ensures
            r is Ok <==> spec_history_consistent(self.history)
                && spec_resource_limits_consistent(self.resource_limits),
            r is Err ==> r->Err_0 == DdsError::InconsistentPolicy,
    {
        check_history_and_limits(&self.history, &self.resource_limits)
    }
}

/// The offered durability satisfies the requested one.
pub open spec fn spec_durability_compatible(o: DataWriterQos, q: DataReaderQos) -> bool {
    spec_durability_rank(q.durability.kind) <= spec_durability_rank(o.durability.kind)
}

/// The offered deadline period is no longer than the requested one.
pub open spec fn spec_deadline_compatible(o: DataWriterQos, q: DataReaderQos) -> bool {
    spec_duration_kind_le(o.deadline.period, q.deadline.period)
}

/// The offered latency budget is no longer than the requested one.
pub open spec fn spec_latency_budget_compatible(o: DataWriterQos, q: DataReaderQos) -> bool {
    spec_duration_kind_le(o.latency_budget.duration, q.latency_budget.duration)
}

/// The offered liveliness is at least as strict as the requested one.
pub open spec fn spec_liveliness_compatible(o: DataWriterQos, q: DataReaderQos) -> bool {
    spec_liveliness_rank(q.liveliness.kind) <= spec_liveliness_rank(o.liveliness.kind)
        && spec_duration_kind_le(o.liveliness.lease_duration, q.liveliness.lease_duration)
}

/// The offered reliability satisfies the requested one.
pub open spec fn spec_reliability_compatible(o: DataWriterQos, q: DataReaderQos) -> bool {
    spec_reliability_rank(q.reliability.kind) <= spec_reliability_rank(o.reliability.kind)
}

/// The offered destination order satisfies the requested one.
pub open spec fn spec_destination_order_compatible(o: DataWriterQos, q: DataReaderQos) -> bool {
    spec_destination_order_rank(q.destination_order.kind)
        <= spec_destination_order_rank(o.destination_order.kind)
}

/// The ownership kinds agree.
pub open spec fn spec_ownership_compatible(o: DataWriterQos, q: DataReaderQos) -> bool {
    o.ownership.kind == q.ownership.kind
}

/// The policy identifiers on which an offer fails a request, in the order the
/// policies are checked.
pub open spec fn spec_incompatible_qos_policies(o: DataWriterQos, q: DataReaderQos) -> Seq<i32> {
    (if !spec_durability_compatible(o, q) { seq![DURABILITY_QOS_POLICY_ID] } else { seq![] })
    + (if !spec_deadline_compatible(o, q) { seq![DEADLINE_QOS_POLICY_ID] } else { seq![] })
    + (if !spec_latency_budget_compatible(o, q) { seq![LATENCYBUDGET_QOS_POLICY_ID] } else {
        seq![]
    })
    + (if !spec_liveliness_compatible(o, q) { seq![LIVELINESS_QOS_POLICY_ID] } else { seq![] })
    + (if !spec_reliability_compatible(o, q) { seq![RELIABILITY_QOS_POLICY_ID] } else { seq![] })
    + (if !spec_destination_order_compatible(o, q) { seq![DESTINATIONORDER_QOS_POLICY_ID] } else {
        seq![]
    })
    + (if !spec_ownership_compatible(o, q) { seq![OWNERSHIP_QOS_POLICY_ID] } else { seq![] })
}

/// An offer matches a request when no policy is incompatible.
pub open spec fn spec_qos_compatible(o: DataWriterQos, q: DataReaderQos) -> bool {
    spec_incompatible_qos_policies(o, q) == Seq::<i32>::empty()
}

/// Collect the policy identifiers on which this offer fails this request.
///
/// An empty answer means the writer and the reader may match.
#[verifier::rlimit(60)]
pub fn incompatible_qos_policies(offered: &DataWriterQos, requested: &DataReaderQos) -> (r: Vec<
    i32,
>)
    ensures
        r@ == spec_incompatible_qos_policies(*offered, *requested),
        r@.len() == 0 <==> spec_qos_compatible(*offered, *requested),
{
    let ghost o = *offered;
    let ghost q = *requested;
    let mut r: Vec<i32> = Vec::new();
    let durability_ok = match (&requested.durability.kind, &offered.durability.kind) {
        (DurabilityQosPolicyKind::TransientLocal, DurabilityQosPolicyKind::Volatile) => false,
        _ => true,
    };
    if !durability_ok {
        r.push(DURABILITY_QOS_POLICY_ID);
    }
    let ghost s1 = if !spec_durability_compatible(o, q) { seq![DURABILITY_QOS_POLICY_ID] } else {
        seq![]
    };
    assert(r@ =~= s1);
    if !duration_kind_le(&offered.deadline.period, &requested.deadline.period) {
        r.push(DEADLINE_QOS_POLICY_ID);
    }
    let ghost s2 = s1 + (if !spec_deadline_compatible(o, q) { seq![DEADLINE_QOS_POLICY_ID] } else {
        seq![]
    });
    assert(r@ =~= s2);
    if !duration_kind_le(&offered.latency_budget.duration, &requested.latency_budget.duration) {
        r.push(LATENCYBUDGET_QOS_POLICY_ID);
    }
    let ghost s3 = s2 + (if !spec_latency_budget_compatible(o, q) {
        seq![LATENCYBUDGET_QOS_POLICY_ID]
    } else {
        seq![]
    });
    assert(r@ =~= s3);
    let liveliness_rank_ok = liveliness_rank(&requested.liveliness.kind)
        <= liveliness_rank(&offered.liveliness.kind);
    if !(liveliness_rank_ok && duration_kind_le(
        &offered.liveliness.lease_duration,
        &requested.liveliness.lease_duration,
    )) {
        r.push(LIVELINESS_QOS_POLICY_ID);
    }
    let ghost s4 = s3 + (if !spec_liveliness_compatible(o, q) { seq![LIVELINESS_QOS_POLICY_ID] }
        else {
        seq![]
    });
    assert(r@ =~= s4);
    let reliability_ok = match (&requested.reliability.kind, &offered.reliability.kind) {
        (ReliabilityQosPolicyKind::Reliable, ReliabilityQosPolicyKind::BestEffort) => false,
        _ => true,
    };
    if !reliability_ok {
        r.push(RELIABILITY_QOS_POLICY_ID);
    }
    let ghost s5 = s4 + (if !spec_reliability_compatible(o, q) { seq![RELIABILITY_QOS_POLICY_ID] }
        else {
        seq![]
    });
    assert(r@ =~= s5);
    let destination_order_ok = match (
        &requested.destination_order.kind,
        &offered.destination_order.kind,
    ) {
        (
            DestinationOrderQosPolicyKind::BySourceTimestamp,
            DestinationOrderQosPolicyKind::ByReceptionTimestamp,
        ) => false,
        _ => true,
    };
    if !destination_order_ok {
        r.push(DESTINATIONORDER_QOS_POLICY_ID);
    }
    let ghost s6 = s5 + (if !spec_destination_order_compatible(o, q) {
        seq![DESTINATIONORDER_QOS_POLICY_ID]
    } else {
        seq![]
    });
    assert(r@ =~= s6);
    if !(offered.ownership.kind == requested.ownership.kind) {
        r.push(OWNERSHIP_QOS_POLICY_ID);
    }
    let ghost s7 = s6 + (if !spec_ownership_compatible(o, q) { seq![OWNERSHIP_QOS_POLICY_ID] }
        else {
        seq![]
    });
    assert(r@ =~= s7);
    assert(s7 == spec_incompatible_qos_policies(o, q));
    proof {
        if spec_incompatible_qos_policies(o, q).len() == 0 {
            assert(spec_incompatible_qos_policies(o, q) =~= Seq::<i32>::empty());
        }
    }
    r
}

/// Rank a liveliness kind for the compatibility order.
fn liveliness_rank(k: &LivelinessQosPolicyKind) -> (r: u8)
    ensures
        r as int == spec_liveliness_rank(*k),
{
    match k {
        LivelinessQosPolicyKind::Automatic => 0,
        LivelinessQosPolicyKind::ManualByParticipant => 1,
        LivelinessQosPolicyKind::ManualByTopic => 2,
    }
}

} // verus!

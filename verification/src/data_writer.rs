//! The user-side data writer: matching against discovered readers, writing
//! and disposing instances through the stateful writer, and acknowledgement
//! tracking.

use vstd::prelude::*;

use crate::data_reader::MatchResult;
use crate::discovery::DiscoveredReaderData;
use crate::error::DdsError;
use crate::history_cache::HistoryCache;
use crate::qos::{incompatible_qos_policies, spec_incompatible_qos_policies, spec_qos_compatible,
    DataWriterQos, ReliabilityQosPolicyKind, spec_history_consistent};
use crate::types::{ChangeKind, InstanceHandle, ReliabilityKind, TopicKind, GUID};
use crate::writer::{ReaderProxy, StatefulWriter};

verus! {

/// The count and the last offending policy of failed match attempts.
#[derive(Clone, Copy, Debug, PartialEq, Eq, Structural)]
pub struct OfferedIncompatibleQosStatus {
    pub total_count: i32,
    pub last_policy_id: i32,
}

/// The count of successful reader matches.
#[derive(Clone, Copy, Debug, PartialEq, Eq, Structural)]
pub struct PublicationMatchedStatus {
    pub total_count: i32,
    pub current_count: i32,
}

/// The user-side data writer.
pub struct DdsDataWriter {
    pub topic_name: String,
    pub data_type_name: String,
    pub qos: DataWriterQos,
    pub enabled: bool,
    pub writer: StatefulWriter,
    pub publication_matched: PublicationMatchedStatus,
    pub offered_incompatible_qos: OfferedIncompatibleQosStatus,
}

impl DdsDataWriter {
    /// Counters in range, the underlying writer sound.
    pub open spec fn wf(self) -> bool {
        &&& self.writer.wf()
        &&& self.publication_matched.current_count == self.writer.matched_readers@.len()
        &&& 0 <= self.publication_matched.current_count
            <= self.publication_matched.total_count
        &&& 0 <= self.offered_incompatible_qos.total_count
    }

    /// A fresh disabled writer whose cache enforces the history policy.
    pub fn new(guid: GUID, topic_name: String, data_type_name: String, qos: DataWriterQos) -> (r:
        DdsDataWriter)
        requires
            spec_history_consistent(qos.history),
        ensures
            r.writer.guid == guid,
            r.topic_name@ == topic_name@,
            r.data_type_name@ == data_type_name@,
            r.qos == qos,
            !r.enabled,
            r.writer.writer_cache.changes@.len() == 0,
            r.writer.writer_cache.history_kind == qos.history.kind,
            r.writer.writer_cache.max_samples == qos.resource_limits.max_samples,
            r.writer.last_change_sequence_number == 0,
            r.writer.matched_readers@.len() == 0,
            r.publication_matched == (PublicationMatchedStatus {
                total_count: 0,
                current_count: 0,
            }),
            r.offered_incompatible_qos == (OfferedIncompatibleQosStatus {
                total_count: 0,
                last_policy_id: 0,
            }),
            r.wf(),
    {
        let reliability = match qos.reliability.kind {
            ReliabilityQosPolicyKind::BestEffort => ReliabilityKind::BestEffort,
            ReliabilityQosPolicyKind::Reliable => ReliabilityKind::Reliable,
        };
        let cache = HistoryCache::new(qos.history.kind, qos.resource_limits.max_samples);
        let writer = StatefulWriter::new(
            guid,
            TopicKind::WithKey,
            reliability,
            true,
            crate::participant::default_heartbeat_period(),
            crate::participant::default_nack_response_delay(),
            crate::participant::default_nack_suppression_duration(),
            usize::MAX,
            cache,
        );
        DdsDataWriter {
            topic_name,
            data_type_name,
            qos,
            enabled: false,
            writer,
            publication_matched: PublicationMatchedStatus { total_count: 0, current_count: 0 },
            offered_incompatible_qos: OfferedIncompatibleQosStatus {
                total_count: 0,
                last_policy_id: 0,
            },
        }
    }

    /// The writer's identity handle.
    pub fn get_instance_handle(&self) -> (r: InstanceHandle)
        ensures
            r.0@ == self.writer.guid.spec_to_bytes(),
    {
        InstanceHandle::from_guid(&self.writer.guid)
    }

    /// The current writer policies.
    pub fn get_qos(&self) -> (r: &DataWriterQos)
        ensures
            r == self.qos,
    {
        &self.qos
    }

    /// Mark the writer enabled.
    pub fn enable(&mut self)
        ensures
            *final(self) == (DdsDataWriter { enabled: true, ..*old(self) }),
    {
        self.enabled = true;
    }

    /// Whether the writer is enabled.
    pub fn is_enabled(&self) -> (r: bool)
        ensures
            r == self.enabled,
    {
        self.enabled
    }

    /// The matching status counters.
    pub fn get_publication_matched_status(&self) -> (r: PublicationMatchedStatus)
        ensures
            r == self.publication_matched,
    {
        self.publication_matched
    }

    /// The incompatible-policy status counters.
    pub fn get_offered_incompatible_qos_status(&self) -> (r: OfferedIncompatibleQosStatus)
        ensures
            r == self.offered_incompatible_qos,
    {
        self.offered_incompatible_qos
    }

    /// Write one sample of one instance.
    ///
    /// The sample takes the next sequence number and enters the history
    /// cache under the history policy. The write fails, with
    /// `OutOfResources` and nothing changed, exactly when a keep-all cache
    /// stands at its sample limit.
    pub fn write_w_timestamp(&mut self, serialized_data: Vec<u8>, handle: InstanceHandle) -> (r:
        Result<(), DdsError>)
        requires
            old(self).wf(),
            old(self).writer.last_change_sequence_number < 0x7fff_ffff_ffff_ffff,
        ensures
            final(self).wf(),
            final(self).qos == old(self).qos,
            final(self).topic_name == old(self).topic_name,
            final(self).writer.guid == old(self).writer.guid,
            final(self).writer.matched_readers == old(self).writer.matched_readers,
            r is Err <==> old(self).writer.writer_cache.spec_is_full(),
            match r {
                Ok(()) => {
                    &&& final(self).writer.last_change_sequence_number == old(
                        self,
                    ).writer.last_change_sequence_number + 1
                    &&& spec_wrote_change(
                        *old(self),
                        *final(self),
                        ChangeKind::Alive,
                        serialized_data@,
                        handle,
                    )
                },
                Err(e) => e == DdsError::OutOfResources && *final(self) == *old(self),
            },
    {
        if self.writer.writer_cache.is_full() {
            return Err(DdsError::OutOfResources);
        }
        let change = self.writer.new_change(
            ChangeKind::Alive,
            serialized_data,
            Vec::new(),
            handle,
        );
        let r = self.writer.writer_cache.add_change(change);
        match r {
            Ok(()) => Ok(()),
            Err(e) => {
                proof {
                    assert(false);
                }
                Err(e)
            },
        }
    }

    /// Dispose one instance: its readers see it leave the alive state.
    ///
    /// The dispose fails, with `OutOfResources` and nothing changed,
    /// exactly when a keep-all cache stands at its sample limit.
    pub fn dispose_w_timestamp(
        &mut self,
        instance_serialized_key: Vec<u8>,
        handle: InstanceHandle,
    ) -> (r: Result<(), DdsError>)
        requires
            old(self).wf(),
            old(self).writer.last_change_sequence_number < 0x7fff_ffff_ffff_ffff,
        ensures
            final(self).wf(),
            final(self).qos == old(self).qos,
            final(self).writer.guid == old(self).writer.guid,
            final(self).writer.matched_readers == old(self).writer.matched_readers,
            r is Err <==> old(self).writer.writer_cache.spec_is_full(),
            match r {
                Ok(()) => {
                    &&& final(self).writer.last_change_sequence_number == old(
                        self,
                    ).writer.last_change_sequence_number + 1
                    &&& spec_wrote_change(
                        *old(self),
                        *final(self),
                        ChangeKind::NotAliveDisposed,
                        instance_serialized_key@,
                        handle,
                    )
                },
                Err(e) => e == DdsError::OutOfResources && *final(self) == *old(self),
            },
    {
        if self.writer.writer_cache.is_full() {
            return Err(DdsError::OutOfResources);
        }
        let change = self.writer.new_change(
            ChangeKind::NotAliveDisposed,
            instance_serialized_key,
            Vec::new(),
            handle,
        );
        let r = self.writer.writer_cache.add_change(change);
        match r {
            Ok(()) => Ok(()),
            Err(e) => {
                proof {
                    assert(false);
                }
                Err(e)
            },
        }
    }

    /// Consider one discovered reader for a match.
    ///
    /// A reader of the same topic and type is matched when every offered
    /// policy satisfies the requested one; otherwise the incompatible-policy
    /// counter moves up and the last offending policy is recorded.
    /// The reader becomes reachable at its announced locators, or at the
    /// participant defaults where the announcement names none.
    pub fn add_matched_reader(
        &mut self,
        discovered_reader_data: &DiscoveredReaderData,
        default_unicast_locator_list: &Vec<crate::types::Locator>,
        default_multicast_locator_list: &Vec<crate::types::Locator>,
    ) -> (r: MatchResult)
        requires
            old(self).wf(),
            old(self).publication_matched.total_count < 0x7fff_ffff,
            old(self).publication_matched.current_count < 0x7fff_ffff,
            old(self).offered_incompatible_qos.total_count < 0x7fff_ffff,
        ensures
            final(self).wf(),
            spec_add_matched_reader_rel(
                *old(self),
                *final(self),
                *discovered_reader_data,
                default_unicast_locator_list@,
                default_multicast_locator_list@,
            ),
            final(self).qos == old(self).qos,
            final(self).writer.guid == old(self).writer.guid,
            final(self).writer.writer_cache == old(self).writer.writer_cache,
            r == MatchResult::NotMatched ==> *final(self) == *old(self),
            r == MatchResult::NotMatched
                <==> !(discovered_reader_data.dds_subscription_data.topic_name@ == old(
                self,
            ).topic_name@ && discovered_reader_data.dds_subscription_data.data_type_name@ == old(
                self,
            ).data_type_name@),
            r == MatchResult::Matched <==> (discovered_reader_data.dds_subscription_data.topic_name@
                == old(self).topic_name@
                && discovered_reader_data.dds_subscription_data.data_type_name@ == old(
                self,
            ).data_type_name@ && spec_qos_compatible(
                old(self).qos,
                discovered_reader_data.dds_subscription_data.qos,
            )),
            r == MatchResult::Matched ==> {
                &&& final(self).writer.matched_readers@.len() == old(
                    self,
                ).writer.matched_readers@.len() + 1
                &&& final(self).writer.matched_readers@.last().remote_reader_guid
                    == discovered_reader_data.remote_reader_guid
                &&& final(self).publication_matched == (PublicationMatchedStatus {
                    total_count: (old(self).publication_matched.total_count + 1) as i32,
                    current_count: (old(self).publication_matched.current_count + 1) as i32,
                })
            },
            r == MatchResult::IncompatibleQos ==> {
                &&& final(self).writer.matched_readers == old(self).writer.matched_readers
                &&& final(self).publication_matched == old(self).publication_matched
                &&& final(self).offered_incompatible_qos.total_count == old(
                    self,
                ).offered_incompatible_qos.total_count + 1
                &&& final(self).offered_incompatible_qos.last_policy_id
                    == spec_incompatible_qos_policies(
                    old(self).qos,
                    discovered_reader_data.dds_subscription_data.qos,
                ).last()
            },
    {
        let same_topic = crate::data_reader::string_eq(
            &discovered_reader_data.dds_subscription_data.topic_name,
            &self.topic_name,
        );
        let same_type = crate::data_reader::string_eq(
            &discovered_reader_data.dds_subscription_data.data_type_name,
            &self.data_type_name,
        );
        if !(same_topic && same_type) {
            return MatchResult::NotMatched;
        }
        let incompatible = incompatible_qos_policies(
            &self.qos,
            &discovered_reader_data.dds_subscription_data.qos,
        );
        if incompatible.len() == 0 {
            let reliability = match discovered_reader_data.dds_subscription_data.qos
                .reliability.kind {
                ReliabilityQosPolicyKind::BestEffort => ReliabilityKind::BestEffort,
                ReliabilityQosPolicyKind::Reliable => ReliabilityKind::Reliable,
            };
            let unicast = if discovered_reader_data.unicast_locator_list.len() > 0 {
                crate::participant::clone_locator_list(
                    &discovered_reader_data.unicast_locator_list,
                )
            } else {
                crate::participant::clone_locator_list(default_unicast_locator_list)
            };
            let multicast = if discovered_reader_data.multicast_locator_list.len() > 0 {
                crate::participant::clone_locator_list(
                    &discovered_reader_data.multicast_locator_list,
                )
            } else {
                crate::participant::clone_locator_list(default_multicast_locator_list)
            };
            let proxy = ReaderProxy::new(
                discovered_reader_data.remote_reader_guid,
                crate::types::entityid_unknown(),
                unicast,
                multicast,
                discovered_reader_data.expects_inline_qos,
                true,
                reliability,
            );
            self.writer.matched_reader_add(proxy);
            self.publication_matched = PublicationMatchedStatus {
                total_count: self.publication_matched.total_count + 1,
                current_count: self.publication_matched.current_count + 1,
            };
            MatchResult::Matched
        } else {
            self.offered_incompatible_qos = OfferedIncompatibleQosStatus {
                total_count: self.offered_incompatible_qos.total_count + 1,
                last_policy_id: incompatible[incompatible.len() - 1],
            };
            MatchResult::IncompatibleQos
        }
    }

    /// Whether every change written so far is acknowledged by every matched
    /// reader.
    pub fn are_all_changes_acknowledged(&self) -> (r: bool)
        ensures
            r <==> forall|i: int| 0 <= i < self.writer.matched_readers@.len()
                ==> self.writer.last_change_sequence_number
                    <= #[trigger] self.writer.matched_readers@[i].highest_acked,
    {
        let mut i: usize = 0;
        let last = self.writer.last_change_sequence_number;
        while i < self.writer.matched_readers.len()
            invariant
                0 <= i <= self.writer.matched_readers@.len(),
                last == self.writer.last_change_sequence_number,
                forall|j: int| 0 <= j < i
                    ==> last <= #[trigger] self.writer.matched_readers@[j].highest_acked,
            decreases self.writer.matched_readers@.len() - i,
        {
            if self.writer.matched_readers[i].highest_acked < last {
                return false;
            }
            i = i + 1;
        }
        true
    }
}

/// A change of this kind, payload and instance entered the writer's cache
/// under its history policy.
pub open spec fn spec_wrote_change(
    pre: DdsDataWriter,
    post: DdsDataWriter,
    kind: ChangeKind,
    payload: Seq<u8>,
    handle: InstanceHandle,
) -> bool {
    exists|c: crate::history_cache::CacheChange|
        {
            &&& #[trigger] c.kind == kind
            &&& c.writer_guid == pre.writer.guid
            &&& c.instance_handle == handle
            &&& c.sequence_number.spec_value() == pre.writer.last_change_sequence_number + 1
            &&& c.data_value.0@ == payload
            &&& crate::reader::spec_cache_took(
                pre.writer.writer_cache,
                post.writer.writer_cache,
                c,
            )
        }
}


impl DdsDataWriter {
    /// Withdraw one departed reader from the matched set.
    pub fn remove_matched_reader(&mut self, a_reader_guid: &GUID)
        requires
            old(self).wf(),
        ensures
            final(self).wf(),
            spec_remove_matched_reader_rel(*old(self), *final(self), *a_reader_guid),
    {
        self.writer.matched_reader_remove(a_reader_guid);
        proof {
            self.writer.matched_readers@.lemma_filter_len(
                |p: ReaderProxy|
                    p.remote_reader_guid.spec_to_bytes() != a_reader_guid.spec_to_bytes(),
            );
            old(self).writer.matched_readers@.lemma_filter_len(
                |p: ReaderProxy|
                    p.remote_reader_guid.spec_to_bytes() != a_reader_guid.spec_to_bytes(),
            );
        }
        let n = self.writer.matched_readers.len();
        self.publication_matched = PublicationMatchedStatus {
            total_count: self.publication_matched.total_count,
            current_count: n as i32,
        };
    }
}

/// How one writer changes when it considers one discovered reader: exactly
/// the effect of `add_matched_reader`.
pub open spec fn spec_add_matched_reader_rel(
    pre: DdsDataWriter,
    post: DdsDataWriter,
    d: DiscoveredReaderData,
    default_unicast_locator_list: Seq<crate::types::Locator>,
    default_multicast_locator_list: Seq<crate::types::Locator>,
) -> bool {
    &&& post.qos == pre.qos
    &&& post.topic_name == pre.topic_name
    &&& post.data_type_name == pre.data_type_name
    &&& post.enabled == pre.enabled
    &&& post.writer.guid == pre.writer.guid
    &&& post.writer.writer_cache == pre.writer.writer_cache
    &&& post.writer.last_change_sequence_number == pre.writer.last_change_sequence_number
    &&& {
        let same = d.dds_subscription_data.topic_name@ == pre.topic_name@
            && d.dds_subscription_data.data_type_name@ == pre.data_type_name@;
        if !same {
            post == pre
        } else if spec_qos_compatible(pre.qos, d.dds_subscription_data.qos) {
            &&& post.writer.matched_readers@.len() == pre.writer.matched_readers@.len() + 1
            &&& post.writer.matched_readers@.last().remote_reader_guid == d.remote_reader_guid
            &&& post.writer.matched_readers@.last().unicast_locator_list@ == (
            if d.unicast_locator_list@.len() > 0 {
                d.unicast_locator_list@
            } else {
                default_unicast_locator_list
            })
            &&& post.writer.matched_readers@.last().multicast_locator_list@ == (
            if d.multicast_locator_list@.len() > 0 {
                d.multicast_locator_list@
            } else {
                default_multicast_locator_list
            })
            &&& post.writer.matched_readers@.last().expects_inline_qos
                == d.expects_inline_qos
            &&& post.publication_matched == (PublicationMatchedStatus {
                total_count: (pre.publication_matched.total_count + 1) as i32,
                current_count: (pre.publication_matched.current_count + 1) as i32,
            })
            &&& post.offered_incompatible_qos == pre.offered_incompatible_qos
        } else {
            &&& post.writer.matched_readers == pre.writer.matched_readers
            &&& post.publication_matched == pre.publication_matched
            &&& post.offered_incompatible_qos.total_count
                == pre.offered_incompatible_qos.total_count + 1
            &&& post.offered_incompatible_qos.last_policy_id
                == spec_incompatible_qos_policies(pre.qos, d.dds_subscription_data.qos).last()
        }
    }
}

/// How one writer changes when a matched reader leaves: exactly the effect
/// of `remove_matched_reader`.
pub open spec fn spec_remove_matched_reader_rel(
    pre: DdsDataWriter,
    post: DdsDataWriter,
    reader_guid: GUID,
) -> bool {
    &&& post.qos == pre.qos
    &&& post.topic_name == pre.topic_name
    &&& post.writer.guid == pre.writer.guid
    &&& post.writer.writer_cache == pre.writer.writer_cache
    &&& post.writer.last_change_sequence_number == pre.writer.last_change_sequence_number
    &&& post.publication_matched.total_count == pre.publication_matched.total_count
    &&& post.writer.matched_readers@ == pre.writer.matched_readers@.filter(
        |p: ReaderProxy|
            p.remote_reader_guid.spec_to_bytes() != reader_guid.spec_to_bytes(),
    )
    &&& post.publication_matched.current_count == post.writer.matched_readers@.len()
}

} // verus!

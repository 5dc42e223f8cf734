//! The publisher: it owns data writers, hands out their identities, keeps
//! the factory-default writer policies and answers acknowledgement waits.

use vstd::prelude::*;

use crate::data_writer::{spec_add_matched_reader_rel, spec_remove_matched_reader_rel,
    DdsDataWriter};
use crate::discovery::DiscoveredReaderData;
use crate::error::DdsError;
use crate::qos::{spec_history_consistent, spec_is_default_data_writer_qos, DataWriterQos,
    PublisherQos, QosKind, TopicQos};
use crate::status::{StatusCondition, StatusKind};
use crate::types::{EntityId, InstanceHandle, GUID, USER_DEFINED_WRITER_WITH_KEY};
use crate::types::GuidPrefix;

verus! {

/// The publisher: the factory and owner of data writers.
pub struct Publisher {
    pub guid: GUID,
    pub qos: PublisherQos,
    pub enabled: bool,
    pub default_datawriter_qos: DataWriterQos,
    pub data_writers: Vec<DdsDataWriter>,
    pub writer_counter: u8,
    pub parent_participant_handle: InstanceHandle,
    pub suspend_depth: u32,
    pub coherent_depth: u32,
    pub status_condition: StatusCondition,
    pub listener_mask: Vec<StatusKind>,
    pub has_listener: bool,
}

impl Publisher {
    /// Every owned writer is sound and the default policies are consistent.
    pub open spec fn wf(self) -> bool {
        &&& forall|i: int| 0 <= i < self.data_writers@.len()
            ==> (#[trigger] self.data_writers@[i]).wf()
        &&& spec_history_consistent(self.default_datawriter_qos.history)
    }

    /// A fresh publisher with no writers and factory-default writer policies.
    pub fn new(guid: GUID, qos: PublisherQos, parent_participant_handle: InstanceHandle) -> (r:
        Publisher)
        ensures
            r.guid == guid,
            r.qos == qos,
            !r.enabled,
            spec_is_default_data_writer_qos(r.default_datawriter_qos),
            r.data_writers@.len() == 0,
            r.writer_counter == 0,
            r.parent_participant_handle == parent_participant_handle,
            r.suspend_depth == 0,
            r.coherent_depth == 0,
            r.wf(),
    {
        Publisher {
            guid,
            qos,
            enabled: false,
            default_datawriter_qos: Default::default(),
            data_writers: Vec::new(),
            writer_counter: 0,
            parent_participant_handle,
            suspend_depth: 0,
            coherent_depth: 0,
            status_condition: StatusCondition::new(),
            listener_mask: Vec::new(),
            has_listener: false,
        }
    }

    /// Create a data writer on a topic, attached to this publisher.
    ///
    /// The factory default policies apply unless specific ones are given;
    /// inconsistent specific policies are refused. The new writer's entity
    /// key pairs the publisher's key with a fresh counter value, so that no
    /// two writers of one participant share an identity.
    pub fn create_datawriter(
        &mut self,
        a_topic_name: String,
        a_type_name: String,
        qos: QosKind<DataWriterQos>,
    ) -> (r: Result<InstanceHandle, DdsError>)
        requires
            old(self).wf(),
            old(self).writer_counter < 255,
        ensures
            final(self).wf(),
            final(self).guid == old(self).guid,
            final(self).default_datawriter_qos == old(self).default_datawriter_qos,
            match r {
                Ok(handle) => {
                    let w = final(self).data_writers@.last();
                    &&& final(self).data_writers@.len() == old(self).data_writers@.len() + 1
                    &&& final(self).data_writers@.take(old(self).data_writers@.len() as int)
                        == old(self).data_writers@
                    &&& final(self).writer_counter == old(self).writer_counter + 1
                    &&& w.writer.guid.prefix == old(self).guid.prefix
                    &&& w.writer.guid.entity_id == (EntityId {
                        entity_key: [
                            old(self).guid.entity_id.entity_key[0],
                            old(self).writer_counter,
                            0,
                        ],
                        entity_kind: USER_DEFINED_WRITER_WITH_KEY,
                    })
                    &&& handle.0@ == w.writer.guid.spec_to_bytes()
                    &&& w.topic_name@ == a_topic_name@
                    &&& w.data_type_name@ == a_type_name@
                    &&& (match qos {
                        QosKind::Default => spec_writer_qos_eq(
                            w.qos,
                            old(self).default_datawriter_qos,
                        ),
                        QosKind::Specific(q) => w.qos == q,
                    })
                    &&& w.writer.writer_cache.changes@.len() == 0
                    &&& !w.enabled
                },
                Err(e) => {
                    &&& e == DdsError::InconsistentPolicy
                    &&& *final(self) == *old(self)
                    &&& (qos matches QosKind::Specific(q)
                        && !(spec_history_consistent(q.history)
                        && crate::qos::spec_resource_limits_consistent(q.resource_limits)))
                },
            },
    {
        let writer_qos = match qos {
            QosKind::Default => clone_data_writer_qos(&self.default_datawriter_qos),
            QosKind::Specific(q) => {
                let check = q.is_consistent();
                match check {
                    Ok(()) => q,
                    Err(e) => {
                        return Err(e);
                    },
                }
            },
        };
        let counter = self.writer_counter;
        self.writer_counter = self.writer_counter + 1;
        let entity_id = EntityId {
            entity_key: [self.guid.entity_id.entity_key[0], counter, 0],
            entity_kind: USER_DEFINED_WRITER_WITH_KEY,
        };
        let writer_guid = GUID { prefix: self.guid.prefix, entity_id };
        let handle = InstanceHandle::from_guid(&writer_guid);
        let writer = DdsDataWriter::new(writer_guid, a_topic_name, a_type_name, writer_qos);
        let ghost pre = self.data_writers@;
        self.data_writers.push(writer);
        proof {
            assert(self.data_writers@.take(pre.len() as int) =~= pre);
        }
        Ok(handle)
    }

    /// Delete the writer with this identity.
    ///
    /// Deleting a writer another publisher created fails with
    /// `PreconditionNotMet`.
    pub fn delete_datawriter(&mut self, a_datawriter_handle: &InstanceHandle) -> (r: Result<
        (),
        DdsError,
    >)
        requires
            old(self).wf(),
        ensures
            final(self).wf(),
            final(self).guid == old(self).guid,
            match r {
                Ok(()) => {
                    &&& exists|k: int|
                        {
                            &&& 0 <= k < old(self).data_writers@.len()
                            &&& (#[trigger] old(self).data_writers@[
                                k
                            ]).writer.guid.spec_to_bytes() == a_datawriter_handle.0@
                            &&& final(self).data_writers@ == old(self).data_writers@.remove(k)
                        }
                },
                Err(e) => {
                    &&& e matches DdsError::PreconditionNotMet(m)
                        && m@ == "Data writer can only be deleted from its parent publisher"@
                    &&& *final(self) == *old(self)
                    &&& forall|k: int| 0 <= k < old(self).data_writers@.len()
                        ==> (#[trigger] old(self).data_writers@[
                            k
                        ]).writer.guid.spec_to_bytes() != a_datawriter_handle.0@
                },
            },
    {
        let mut i: usize = 0;
        while i < self.data_writers.len()
            invariant
                old(self).wf(),
                *self == *old(self),
                0 <= i <= self.data_writers@.len(),
                forall|k: int| 0 <= k < i ==> (#[trigger] self.data_writers@[
                    k
                ]).writer.guid.spec_to_bytes() != a_datawriter_handle.0@,
            decreases self.data_writers@.len() - i,
        {
            let h = self.data_writers[i].get_instance_handle();
            if crate::types::bytes_eq(&h.0, &a_datawriter_handle.0) {
                let ghost pre = self.data_writers@;
                self.data_writers.remove(i);
                proof {
                    assert forall|m: int| 0 <= m < self.data_writers@.len()
                        implies (#[trigger] self.data_writers@[m]).wf() by {
                        if m < i {
                            assert(old(self).data_writers@[m].wf());
                            assert(self.data_writers@[m] == pre[m]);
                        } else {
                            assert(old(self).data_writers@[m + 1].wf());
                            assert(self.data_writers@[m] == pre[m + 1]);
                        }
                    }
                }
                return Ok(());
            }
            i = i + 1;
        }
        Err(
            DdsError::PreconditionNotMet(
                "Data writer can only be deleted from its parent publisher".to_owned(),
            ),
        )
    }

    /// The identity of some writer of this publisher on the topic, if any.
    pub fn lookup_datawriter(&self, topic_name: &String) -> (r: Result<InstanceHandle, DdsError>)
        ensures
            match r {
                Ok(handle) => exists|k: int|
                    0 <= k < self.data_writers@.len() && (#[trigger] self.data_writers@[
                        k
                    ]).topic_name@ == topic_name@ && handle.0@ == self.data_writers@[
                        k
                    ].writer.guid.spec_to_bytes(),
                Err(e) => {
                    &&& e matches DdsError::PreconditionNotMet(m) && m@ == "Not found"@
                    &&& forall|k: int| 0 <= k < self.data_writers@.len()
                        ==> (#[trigger] self.data_writers@[k]).topic_name@ != topic_name@
                },
            },
    {
        let mut i: usize = 0;
        while i < self.data_writers.len()
            invariant
                0 <= i <= self.data_writers@.len(),
                forall|k: int| 0 <= k < i
                    ==> (#[trigger] self.data_writers@[k]).topic_name@ != topic_name@,
            decreases self.data_writers@.len() - i,
        {
            if crate::data_reader::string_eq(&self.data_writers[i].topic_name, topic_name) {
                return Ok(self.data_writers[i].get_instance_handle());
            }
            i = i + 1;
        }
        Err(DdsError::PreconditionNotMet("Not found".to_owned()))
    }

    /// Hint that several writers are about to publish together.
    pub fn suspend_publications(&mut self) -> (r: Result<(), DdsError>)
        requires
            old(self).suspend_depth < 0xffff_ffff,
        ensures
            old(self).enabled ==> r is Ok && *final(self) == (Publisher {
                suspend_depth: (old(self).suspend_depth + 1) as u32,
                ..*old(self)
            }),
            !old(self).enabled ==> r == Result::<(), DdsError>::Err(DdsError::NotEnabled)
                && *final(self) == *old(self),
    {
        if !self.enabled {
            return Err(DdsError::NotEnabled);
        }
        self.suspend_depth = self.suspend_depth + 1;
        Ok(())
    }

    /// End the hint a matching suspend began.
    ///
    /// A resume without a matching suspend fails with `PreconditionNotMet`.
    pub fn resume_publications(&mut self) -> (r: Result<(), DdsError>)
        ensures
            old(self).suspend_depth > 0 ==> r is Ok && *final(self) == (Publisher {
                suspend_depth: (old(self).suspend_depth - 1) as u32,
                ..*old(self)
            }),
            old(self).suspend_depth == 0 ==> (r matches Result::Err(e)
                && e matches DdsError::PreconditionNotMet(m)
                && m@ == "Resume must be called after suspend"@) && *final(self) == *old(self),
    {
        if self.suspend_depth == 0 {
            return Err(
                DdsError::PreconditionNotMet("Resume must be called after suspend".to_owned()),
            );
        }
        self.suspend_depth = self.suspend_depth - 1;
        Ok(())
    }

    /// Open a coherent set of modifications; the calls nest.
    pub fn begin_coherent_changes(&mut self) -> (r: Result<(), DdsError>)
        requires
            old(self).coherent_depth < 0xffff_ffff,
        ensures
            r is Ok,
            *final(self) == (Publisher {
                coherent_depth: (old(self).coherent_depth + 1) as u32,
                ..*old(self)
            }),
    {
        self.coherent_depth = self.coherent_depth + 1;
        Ok(())
    }

    /// Close the innermost coherent set.
    ///
    /// An end without a matching begin fails with `PreconditionNotMet`.
    pub fn end_coherent_changes(&mut self) -> (r: Result<(), DdsError>)
        ensures
            old(self).coherent_depth > 0 ==> r is Ok && *final(self) == (Publisher {
                coherent_depth: (old(self).coherent_depth - 1) as u32,
                ..*old(self)
            }),
            old(self).coherent_depth == 0 ==> (r matches Result::Err(e)
                && e matches DdsError::PreconditionNotMet(m)
                && m@ == "End coherent changes must be called after begin"@)
                && *final(self) == *old(self),
    {
        if self.coherent_depth == 0 {
            return Err(
                DdsError::PreconditionNotMet(
                    "End coherent changes must be called after begin".to_owned(),
                ),
            );
        }
        self.coherent_depth = self.coherent_depth - 1;
        Ok(())
    }

    /// Decide a wait for acknowledgements once its deadline has passed.
    ///
    /// Succeeds when every writer of the publisher has every change
    /// acknowledged by every matched reader, and reports `Timeout`
    /// otherwise.
    pub fn wait_for_acknowledgments(&self) -> (r: Result<(), DdsError>)
        ensures
            r is Ok <==> forall|k: int| 0 <= k < self.data_writers@.len()
                ==> spec_all_acknowledged(#[trigger] self.data_writers@[k]),
            r is Err ==> r->Err_0 == DdsError::Timeout,
    {
        let mut k: usize = 0;
        while k < self.data_writers.len()
            invariant
                0 <= k <= self.data_writers@.len(),
                forall|m: int| 0 <= m < k
                    ==> spec_all_acknowledged(#[trigger] self.data_writers@[m]),
            decreases self.data_writers@.len() - k,
        {
            if !self.data_writers[k].are_all_changes_acknowledged() {
                return Err(DdsError::Timeout);
            }
            k = k + 1;
        }
        Ok(())
    }

    /// The identity handle of the participant that owns this publisher.
    pub fn get_participant(&self) -> (r: InstanceHandle)
        ensures
            r == self.parent_participant_handle,
    {
        self.parent_participant_handle
    }

    /// Delete every writer this publisher created.
    pub fn delete_contained_entities(&mut self) -> (r: Result<(), DdsError>)
        ensures
            r is Ok,
            *final(self) == (Publisher { data_writers: final(self).data_writers, ..*old(self) }),
            final(self).data_writers@ == Seq::<DdsDataWriter>::empty(),
    {
        self.data_writers = Vec::new();
        proof {
            assert(self.data_writers@ =~= Seq::<DdsDataWriter>::empty());
        }
        Ok(())
    }

    /// Set the default policies for writers created later.
    ///
    /// The factory values come back with `Default`; inconsistent specific
    /// policies are refused and change nothing.
    pub fn set_default_datawriter_qos(&mut self, qos: QosKind<DataWriterQos>) -> (r: Result<
        (),
        DdsError,
    >)
        ensures
            match r {
                Ok(()) => {
                    &&& *final(self) == (Publisher {
                        default_datawriter_qos: final(self).default_datawriter_qos,
                        ..*old(self)
                    })
                    &&& (match qos {
                        QosKind::Default => spec_is_default_data_writer_qos(
                            final(self).default_datawriter_qos,
                        ),
                        QosKind::Specific(q) => final(self).default_datawriter_qos == q,
                    })
                },
                Err(e) => {
                    &&& e == DdsError::InconsistentPolicy
                    &&& *final(self) == *old(self)
                    &&& (qos matches QosKind::Specific(q)
                        && !(spec_history_consistent(q.history)
                        && crate::qos::spec_resource_limits_consistent(q.resource_limits)))
                },
            },
            r is Ok ==> spec_history_consistent(final(self).default_datawriter_qos.history),
    {
        match qos {
            QosKind::Default => {
                self.default_datawriter_qos = Default::default();
                Ok(())
            },
            QosKind::Specific(q) => {
                let check = q.is_consistent();
                match check {
                    Ok(()) => {
                        self.default_datawriter_qos = q;
                        Ok(())
                    },
                    Err(e) => Err(e),
                }
            },
        }
    }

    /// The default policies for writers created later.
    pub fn get_default_datawriter_qos(&self) -> (r: &DataWriterQos)
        ensures
            r == self.default_datawriter_qos,
    {
        &self.default_datawriter_qos
    }

    /// Copy the topic's policies over the corresponding writer policies.
    pub fn copy_from_topic_qos(
        &self,
        a_datawriter_qos: &mut DataWriterQos,
        a_topic_qos: &TopicQos,
    ) -> (r: Result<(), DdsError>)
        ensures
            r is Ok,
            *final(a_datawriter_qos) == (DataWriterQos {
                durability: a_topic_qos.durability,
                deadline: a_topic_qos.deadline,
                latency_budget: a_topic_qos.latency_budget,
                liveliness: a_topic_qos.liveliness,
                reliability: a_topic_qos.reliability,
                destination_order: a_topic_qos.destination_order,
                history: a_topic_qos.history,
                resource_limits: a_topic_qos.resource_limits,
                transport_priority: a_topic_qos.transport_priority,
                lifespan: a_topic_qos.lifespan,
                ownership: a_topic_qos.ownership,
                ..*old(a_datawriter_qos)
            }),
    {
        a_datawriter_qos.durability = a_topic_qos.durability;
        a_datawriter_qos.deadline = a_topic_qos.deadline;
        a_datawriter_qos.latency_budget = a_topic_qos.latency_budget;
        a_datawriter_qos.liveliness = a_topic_qos.liveliness;
        a_datawriter_qos.reliability = a_topic_qos.reliability;
        a_datawriter_qos.destination_order = a_topic_qos.destination_order;
        a_datawriter_qos.history = a_topic_qos.history;
        a_datawriter_qos.resource_limits = a_topic_qos.resource_limits;
        a_datawriter_qos.transport_priority = a_topic_qos.transport_priority;
        a_datawriter_qos.lifespan = a_topic_qos.lifespan;
        a_datawriter_qos.ownership = a_topic_qos.ownership;
        Ok(())
    }

    /// Replace the publisher's own policies.
    pub fn set_qos(&mut self, qos: QosKind<PublisherQos>) -> (r: Result<(), DdsError>)
        ensures
            r is Ok,
            *final(self) == (Publisher { qos: final(self).qos, ..*old(self) }),
            match qos {
                QosKind::Default => final(self).qos.partition.name@
                    == Seq::<String>::empty(),
                QosKind::Specific(q) => final(self).qos == q,
            },
    {
        match qos {
            QosKind::Default => {
                self.qos = Default::default();
                Ok(())
            },
            QosKind::Specific(q) => {
                self.qos = q;
                Ok(())
            },
        }
    }

    /// The publisher's own policies.
    pub fn get_qos(&self) -> (r: &PublisherQos)
        ensures
            r == self.qos,
    {
        &self.qos
    }

    /// Attach or detach a listener for the given statuses.
    pub fn set_listener(&mut self, a_listener: bool, mask: Vec<StatusKind>) -> (r: Result<
        (),
        DdsError,
    >)
        ensures
            r is Ok,
            final(self).has_listener == a_listener,
            final(self).listener_mask == mask,
            *final(self) == (Publisher {
                has_listener: a_listener,
                listener_mask: final(self).listener_mask,
                ..*old(self)
            }),
    {
        self.has_listener = a_listener;
        self.listener_mask = mask;
        Ok(())
    }

    /// Whether a listener is attached.
    pub fn get_listener(&self) -> (r: bool)
        ensures
            r == self.has_listener,
    {
        self.has_listener
    }

    /// The publisher's status condition.
    pub fn get_statuscondition(&self) -> (r: &StatusCondition)
        ensures
            r == self.status_condition,
    {
        &self.status_condition
    }

    /// The statuses that changed since they were last read.
    pub fn get_status_changes(&self) -> (r: Result<Vec<StatusKind>, DdsError>)
        ensures
            r is Ok && r->Ok_0@ == Seq::<StatusKind>::empty(),
    {
        let r: Vec<StatusKind> = Vec::new();
        proof {
            assert(r@ =~= Seq::<StatusKind>::empty());
        }
        Ok(r)
    }

    /// Mark the publisher enabled.
    pub fn enable(&mut self) -> (r: Result<(), DdsError>)
        ensures
            r is Ok,
            *final(self) == (Publisher { enabled: true, ..*old(self) }),
    {
        self.enabled = true;
        Ok(())
    }

    /// The publisher's identity handle.
    pub fn get_instance_handle(&self) -> (r: InstanceHandle)
        ensures
            r.0@ == self.guid.spec_to_bytes(),
    {
        InstanceHandle::from_guid(&self.guid)
    }
}

/// Every change of the writer is acknowledged by every matched reader.
pub open spec fn spec_all_acknowledged(w: DdsDataWriter) -> bool {
    forall|i: int| 0 <= i < w.writer.matched_readers@.len()
        ==> w.writer.last_change_sequence_number
            <= (#[trigger] w.writer.matched_readers@[i]).highest_acked
}

/// Two writer policy sets agree field for field.
pub open spec fn spec_writer_qos_eq(a: DataWriterQos, b: DataWriterQos) -> bool {
    &&& a.durability == b.durability
    &&& a.deadline == b.deadline
    &&& a.latency_budget == b.latency_budget
    &&& a.liveliness == b.liveliness
    &&& a.reliability == b.reliability
    &&& a.destination_order == b.destination_order
    &&& a.history == b.history
    &&& a.resource_limits == b.resource_limits
    &&& a.transport_priority == b.transport_priority
    &&& a.lifespan == b.lifespan
    &&& a.ownership == b.ownership
    &&& a.ownership_strength == b.ownership_strength
    &&& a.user_data.value@ == b.user_data.value@
}

/// Copy a set of writer policies.
pub fn clone_data_writer_qos(q: &DataWriterQos) -> (r: DataWriterQos)
    ensures
        spec_writer_qos_eq(r, *q),
{
    let mut user_data: Vec<u8> = Vec::new();
    let mut i: usize = 0;
    while i < q.user_data.value.len()
        invariant
            0 <= i <= q.user_data.value@.len(),
            user_data@ == q.user_data.value@.take(i as int),
        decreases q.user_data.value@.len() - i,
    {
        user_data.push(q.user_data.value[i]);
        i = i + 1;
        proof {
            assert(user_data@ =~= q.user_data.value@.take(i as int));
        }
    }
    proof {
        assert(user_data@ =~= q.user_data.value@);
    }
    let r = DataWriterQos {
        durability: q.durability,
        deadline: q.deadline,
        latency_budget: q.latency_budget,
        liveliness: q.liveliness,
        reliability: q.reliability,
        destination_order: q.destination_order,
        history: q.history,
        resource_limits: q.resource_limits,
        transport_priority: q.transport_priority,
        lifespan: q.lifespan,
        ownership: q.ownership,
        ownership_strength: q.ownership_strength,
        user_data: crate::qos::UserDataQosPolicy { value: user_data },
    };
    r
}


impl Publisher {
    /// Offer one discovered reader to every writer of this publisher; a
    /// matched reader becomes reachable at its announced locators, or at
    /// the given participant defaults where the announcement names none.
    pub fn add_matched_reader(
        &mut self,
        discovered_reader_data: &DiscoveredReaderData,
        default_unicast_locator_list: &Vec<crate::types::Locator>,
        default_multicast_locator_list: &Vec<crate::types::Locator>,
    )
        requires
            old(self).wf(),
            forall|k: int| 0 <= k < old(self).data_writers@.len() ==> {
                &&& (#[trigger] old(self).data_writers@[k]).publication_matched.total_count
                    < 0x7fff_ffff
                &&& old(self).data_writers@[k].offered_incompatible_qos.total_count < 0x7fff_ffff
            },
        ensures
            final(self).wf(),
            *final(self) == (Publisher { data_writers: final(self).data_writers, ..*old(self) }),
            final(self).data_writers@.len() == old(self).data_writers@.len(),
            forall|k: int| 0 <= k < old(self).data_writers@.len()
                ==> spec_add_matched_reader_rel(
                    #[trigger] old(self).data_writers@[k],
                    final(self).data_writers@[k],
                    *discovered_reader_data,
                    default_unicast_locator_list@,
                    default_multicast_locator_list@,
                ),
    {
        let mut i: usize = 0;
        let ghost pre = self.data_writers@;
        while i < self.data_writers.len()
            invariant
                old(self).wf(),
                pre == old(self).data_writers@,
                self.guid == old(self).guid,
                self.qos == old(self).qos,
                self.enabled == old(self).enabled,
                self.default_datawriter_qos == old(self).default_datawriter_qos,
                self.writer_counter == old(self).writer_counter,
                self.parent_participant_handle == old(self).parent_participant_handle,
                self.suspend_depth == old(self).suspend_depth,
                self.coherent_depth == old(self).coherent_depth,
                self.status_condition == old(self).status_condition,
                self.listener_mask == old(self).listener_mask,
                self.has_listener == old(self).has_listener,
                0 <= i <= self.data_writers@.len(),
                self.data_writers@.len() == pre.len(),
                forall|k: int| 0 <= k < pre.len() ==> {
                    &&& (#[trigger] pre[k]).publication_matched.total_count < 0x7fff_ffff
                    &&& pre[k].offered_incompatible_qos.total_count < 0x7fff_ffff
                },
                forall|k: int| 0 <= k < i ==> spec_add_matched_reader_rel(
                    #[trigger] pre[k],
                    self.data_writers@[k],
                    *discovered_reader_data,
                    default_unicast_locator_list@,
                    default_multicast_locator_list@,
                ),
                forall|k: int| i <= k < pre.len() ==> #[trigger] self.data_writers@[k] == pre[k],
                forall|k: int| 0 <= k < self.data_writers@.len()
                    ==> (#[trigger] self.data_writers@[k]).wf(),
            decreases self.data_writers@.len() - i,
        {
            let writer = &mut mut_writer_at(&mut self.data_writers, i);
            writer.add_matched_reader(
                discovered_reader_data,
                default_unicast_locator_list,
                default_multicast_locator_list,
            );
            i = i + 1;
        }
    }

    /// Withdraw one departed reader from every writer of this publisher.
    pub fn remove_matched_reader(&mut self, reader_guid: &GUID)
        requires
            old(self).wf(),
        ensures
            final(self).wf(),
            *final(self) == (Publisher { data_writers: final(self).data_writers, ..*old(self) }),
            final(self).data_writers@.len() == old(self).data_writers@.len(),
            forall|k: int| 0 <= k < old(self).data_writers@.len()
                ==> spec_remove_matched_reader_rel(
                    #[trigger] old(self).data_writers@[k],
                    final(self).data_writers@[k],
                    *reader_guid,
                ),
    {
        let mut i: usize = 0;
        let ghost pre = self.data_writers@;
        while i < self.data_writers.len()
            invariant
                old(self).wf(),
                pre == old(self).data_writers@,
                self.guid == old(self).guid,
                self.qos == old(self).qos,
                self.enabled == old(self).enabled,
                self.default_datawriter_qos == old(self).default_datawriter_qos,
                self.writer_counter == old(self).writer_counter,
                self.parent_participant_handle == old(self).parent_participant_handle,
                self.suspend_depth == old(self).suspend_depth,
                self.coherent_depth == old(self).coherent_depth,
                self.status_condition == old(self).status_condition,
                self.listener_mask == old(self).listener_mask,
                self.has_listener == old(self).has_listener,
                0 <= i <= self.data_writers@.len(),
                self.data_writers@.len() == pre.len(),
                forall|k: int| 0 <= k < i ==> spec_remove_matched_reader_rel(
                    #[trigger] pre[k],
                    self.data_writers@[k],
                    *reader_guid,
                ),
                forall|k: int| i <= k < pre.len() ==> #[trigger] self.data_writers@[k] == pre[k],
                forall|k: int| 0 <= k < self.data_writers@.len()
                    ==> (#[trigger] self.data_writers@[k]).wf(),
            decreases self.data_writers@.len() - i,
        {
            let writer = &mut mut_writer_at(&mut self.data_writers, i);
            writer.remove_matched_reader(reader_guid);
            i = i + 1;
        }
    }
}

/// A mutable borrow of the writer at one index.
fn mut_writer_at(writers: &mut Vec<DdsDataWriter>, i: usize) -> (r: &mut DdsDataWriter)
    requires
        i < old(writers)@.len(),
    ensures
        *r == old(writers)@[i as int],
        final(writers)@ == old(writers)@.update(i as int, *final(r)),
{
    &mut writers[i]
}

} // verus!

//! The subscriber: it owns data readers, hands out their identities and
//! fans discovered writers out to them.

use vstd::prelude::*;

use crate::data_reader::{spec_add_matched_writer_rel, spec_remove_matched_writer_rel,
    DdsDataReader};
use crate::discovery::DiscoveredWriterData;
use crate::error::DdsError;
use crate::qos::{spec_history_consistent, spec_is_default_data_reader_qos, DataReaderQos,
    QosKind, SubscriberQos};
use crate::types::{EntityId, InstanceHandle, GUID, USER_DEFINED_READER_WITH_KEY};

verus! {

/// The subscriber: the factory and owner of data readers.
pub struct Subscriber {
    pub guid: GUID,
    pub qos: SubscriberQos,
    pub enabled: bool,
    pub default_datareader_qos: DataReaderQos,
    pub data_readers: Vec<DdsDataReader>,
    pub reader_counter: u8,
    pub parent_participant_handle: InstanceHandle,
}

impl Subscriber {
    /// Every owned reader is sound.
    pub open spec fn wf(self) -> bool {
        &&& forall|i: int| 0 <= i < self.data_readers@.len()
            ==> (#[trigger] self.data_readers@[i]).wf()
        &&& spec_history_consistent(self.default_datareader_qos.history)
    }

    /// A fresh subscriber with no readers.
    pub fn new(guid: GUID, qos: SubscriberQos, parent_participant_handle: InstanceHandle) -> (r:
        Subscriber)
        ensures
            r.guid == guid,
            r.qos == qos,
            !r.enabled,
            spec_is_default_data_reader_qos(r.default_datareader_qos),
            r.data_readers@.len() == 0,
            r.reader_counter == 0,
            r.parent_participant_handle == parent_participant_handle,
            r.wf(),
    {
        Subscriber {
            guid,
            qos,
            enabled: false,
            default_datareader_qos: Default::default(),
            data_readers: Vec::new(),
            reader_counter: 0,
            parent_participant_handle,
        }
    }

    /// Create a data reader on a topic, attached to this subscriber.
    pub fn create_datareader(
        &mut self,
        a_topic_name: String,
        a_type_name: String,
        qos: QosKind<DataReaderQos>,
    ) -> (r: Result<InstanceHandle, DdsError>)
        requires
            old(self).wf(),
            old(self).reader_counter < 255,
        ensures
            final(self).wf(),
            final(self).guid == old(self).guid,
            match r {
                Ok(handle) => {
                    let rd = final(self).data_readers@.last();
                    &&& final(self).data_readers@.len() == old(self).data_readers@.len() + 1
                    &&& final(self).data_readers@.take(old(self).data_readers@.len() as int)
                        == old(self).data_readers@
                    &&& final(self).reader_counter == old(self).reader_counter + 1
                    &&& rd.guid.prefix == old(self).guid.prefix
                    &&& rd.guid.entity_id == (EntityId {
                        entity_key: [
                            old(self).guid.entity_id.entity_key[0],
                            old(self).reader_counter,
                            0,
                        ],
                        entity_kind: USER_DEFINED_READER_WITH_KEY,
                    })
                    &&& handle.0@ == rd.guid.spec_to_bytes()
                    &&& rd.topic_name@ == a_topic_name@
                    &&& rd.data_type_name@ == a_type_name@
                    &&& rd.samples@.len() == 0
                    &&& rd.matched_writers@.len() == 0
                    &&& !rd.enabled
                    &&& (qos matches QosKind::Specific(q) ==> rd.qos == q)
                },
                Err(e) => {
                    &&& e == DdsError::InconsistentPolicy
                    &&& *final(self) == *old(self)
                    &&& (qos matches QosKind::Specific(q)
                        && !(spec_history_consistent(q.history)
                        && crate::qos::spec_resource_limits_consistent(q.resource_limits)))
                },
            },
    {
        let reader_qos = match qos {
            QosKind::Default => clone_data_reader_qos(&self.default_datareader_qos),
            QosKind::Specific(q) => {
                let check = q.is_consistent();
                match check {
                    Ok(()) => q,
                    Err(e) => {
                        return Err(e);
                    },
                }
            },
        };
        let counter = self.reader_counter;
        self.reader_counter = self.reader_counter + 1;
        let entity_id = EntityId {
            entity_key: [self.guid.entity_id.entity_key[0], counter, 0],
            entity_kind: USER_DEFINED_READER_WITH_KEY,
        };
        let reader_guid = GUID { prefix: self.guid.prefix, entity_id };
        let handle = InstanceHandle::from_guid(&reader_guid);
        let reader = DdsDataReader::new(reader_guid, a_topic_name, a_type_name, reader_qos);
        let ghost pre = self.data_readers@;
        self.data_readers.push(reader);
        proof {
            assert(self.data_readers@.take(pre.len() as int) =~= pre);
        }
        Ok(handle)
    }

    /// The identity of some reader of this subscriber on the topic, if any.
    pub fn lookup_datareader(&self, topic_name: &String) -> (r: Option<InstanceHandle>)
        ensures
            match r {
                Option::Some(handle) => exists|k: int|
                    0 <= k < self.data_readers@.len() && (#[trigger] self.data_readers@[
                        k
                    ]).topic_name@ == topic_name@ && handle.0@ == self.data_readers@[
                        k
                    ].guid.spec_to_bytes(),
                Option::None => forall|k: int| 0 <= k < self.data_readers@.len()
                    ==> (#[trigger] self.data_readers@[k]).topic_name@ != topic_name@,
            },
    {
        let mut i: usize = 0;
        while i < self.data_readers.len()
            invariant
                0 <= i <= self.data_readers@.len(),
                forall|k: int| 0 <= k < i
                    ==> (#[trigger] self.data_readers@[k]).topic_name@ != topic_name@,
            decreases self.data_readers@.len() - i,
        {
            if crate::data_reader::string_eq(&self.data_readers[i].topic_name, topic_name) {
                return Option::Some(self.data_readers[i].get_instance_handle());
            }
            i = i + 1;
        }
        Option::None
    }

    /// Whether the subscriber owns no readers.
    pub fn is_empty(&self) -> (r: bool)
        ensures
            r == (self.data_readers@.len() == 0),
    {
        self.data_readers.len() == 0
    }

    /// Delete every reader this subscriber created.
    pub fn delete_contained_entities(&mut self)
        ensures
            *final(self) == (Subscriber { data_readers: final(self).data_readers, ..*old(self) }),
            final(self).data_readers@ == Seq::<DdsDataReader>::empty(),
    {
        self.data_readers = Vec::new();
        proof {
            assert(self.data_readers@ =~= Seq::<DdsDataReader>::empty());
        }
    }

    /// Offer one discovered writer to every reader of this subscriber; a
    /// matched writer becomes reachable at its announced locators, or at
    /// the given participant defaults where the announcement names none.
    pub fn add_matched_writer(
        &mut self,
        discovered_writer_data: &DiscoveredWriterData,
        default_unicast_locator_list: &Vec<crate::types::Locator>,
        default_multicast_locator_list: &Vec<crate::types::Locator>,
    )
        requires
            old(self).wf(),
            forall|k: int| 0 <= k < old(self).data_readers@.len() ==> {
                &&& (#[trigger] old(self).data_readers@[k]).subscription_matched.total_count
                    < 0x7fff_ffff
                &&& old(self).data_readers@[k].requested_incompatible_qos.total_count
                    < 0x7fff_ffff
            },
        ensures
            final(self).wf(),
            *final(self) == (Subscriber { data_readers: final(self).data_readers, ..*old(self) }),
            final(self).data_readers@.len() == old(self).data_readers@.len(),
            forall|k: int| 0 <= k < old(self).data_readers@.len()
                ==> spec_add_matched_writer_rel(
                    #[trigger] old(self).data_readers@[k],
                    final(self).data_readers@[k],
                    *discovered_writer_data,
                    default_unicast_locator_list@,
                    default_multicast_locator_list@,
                ),
    {
        let mut i: usize = 0;
        let ghost pre = self.data_readers@;
        while i < self.data_readers.len()
            invariant
                old(self).wf(),
                pre == old(self).data_readers@,
                self.guid == old(self).guid,
                self.qos == old(self).qos,
                self.enabled == old(self).enabled,
                self.default_datareader_qos == old(self).default_datareader_qos,
                self.reader_counter == old(self).reader_counter,
                self.parent_participant_handle == old(self).parent_participant_handle,
                0 <= i <= self.data_readers@.len(),
                self.data_readers@.len() == pre.len(),
                forall|k: int| 0 <= k < pre.len() ==> {
                    &&& (#[trigger] pre[k]).subscription_matched.total_count < 0x7fff_ffff
                    &&& pre[k].requested_incompatible_qos.total_count < 0x7fff_ffff
                },
                forall|k: int| 0 <= k < i ==> spec_add_matched_writer_rel(
                    #[trigger] pre[k],
                    self.data_readers@[k],
                    *discovered_writer_data,
                    default_unicast_locator_list@,
                    default_multicast_locator_list@,
                ),
                forall|k: int| i <= k < pre.len()
                    ==> #[trigger] self.data_readers@[k] == pre[k],
                forall|k: int| 0 <= k < self.data_readers@.len()
                    ==> (#[trigger] self.data_readers@[k]).wf(),
            decreases self.data_readers@.len() - i,
        {
            let reader = &mut mut_reader_at(&mut self.data_readers, i);
            reader.add_matched_writer(
                discovered_writer_data,
                default_unicast_locator_list,
                default_multicast_locator_list,
            );
            i = i + 1;
        }
    }

    /// Withdraw one departed writer from every reader of this subscriber.
    pub fn remove_matched_writer(&mut self, writer_guid: &GUID)
        requires
            old(self).wf(),
        ensures
            final(self).wf(),
            *final(self) == (Subscriber { data_readers: final(self).data_readers, ..*old(self) }),
            final(self).data_readers@.len() == old(self).data_readers@.len(),
            forall|k: int| 0 <= k < old(self).data_readers@.len()
                ==> spec_remove_matched_writer_rel(
                    #[trigger] old(self).data_readers@[k],
                    final(self).data_readers@[k],
                    *writer_guid,
                ),
    {
        let mut i: usize = 0;
        let ghost pre = self.data_readers@;
        while i < self.data_readers.len()
            invariant
                old(self).wf(),
                pre == old(self).data_readers@,
                self.guid == old(self).guid,
                self.qos == old(self).qos,
                self.enabled == old(self).enabled,
                self.default_datareader_qos == old(self).default_datareader_qos,
                self.reader_counter == old(self).reader_counter,
                self.parent_participant_handle == old(self).parent_participant_handle,
                0 <= i <= self.data_readers@.len(),
                self.data_readers@.len() == pre.len(),
                forall|k: int| 0 <= k < i ==> spec_remove_matched_writer_rel(
                    #[trigger] pre[k],
                    self.data_readers@[k],
                    *writer_guid,
                ),
                forall|k: int| i <= k < pre.len()
                    ==> #[trigger] self.data_readers@[k] == pre[k],
                forall|k: int| 0 <= k < self.data_readers@.len()
                    ==> (#[trigger] self.data_readers@[k]).wf(),
            decreases self.data_readers@.len() - i,
        {
            let reader = &mut mut_reader_at(&mut self.data_readers, i);
            reader.remove_matched_writer(writer_guid);
            i = i + 1;
        }
    }

    /// The subscriber's identity handle.
    pub fn get_instance_handle(&self) -> (r: InstanceHandle)
        ensures
            r.0@ == self.guid.spec_to_bytes(),
    {
        InstanceHandle::from_guid(&self.guid)
    }
}

/// A mutable borrow of the reader at one index.
fn mut_reader_at(readers: &mut Vec<DdsDataReader>, i: usize) -> (r: &mut DdsDataReader)
    requires
        i < old(readers)@.len(),
    ensures
        *r == old(readers)@[i as int],
        final(readers)@ == old(readers)@.update(i as int, *final(r)),
{
    &mut readers[i]
}

/// Copy a set of reader policies.
pub fn clone_data_reader_qos(q: &DataReaderQos) -> (r: DataReaderQos)
    ensures
        spec_reader_qos_eq(r, *q),
{
    let mut user_data: Vec<u8> = Vec::new();
    let mut i: usize = 0;
    while i < q.user_data.value.len()
        invariant
            0 <= i <= q.user_data.value@.len(),
            user_data@ == q.user_data.value@.take(i as int),
        decreases q.user_data.value@.len() - i,
    {
        user_data.push(q.user_data.value[i]);
        i = i + 1;
        proof {
            assert(user_data@ =~= q.user_data.value@.take(i as int));
        }
    }
    proof {
        assert(user_data@ =~= q.user_data.value@);
    }
    DataReaderQos {
        durability: q.durability,
        deadline: q.deadline,
        latency_budget: q.latency_budget,
        liveliness: q.liveliness,
        reliability: q.reliability,
        destination_order: q.destination_order,
        history: q.history,
        resource_limits: q.resource_limits,
        ownership: q.ownership,
        user_data: crate::qos::UserDataQosPolicy { value: user_data },
    }
}

/// Two reader policy sets agree field for field.
pub open spec fn spec_reader_qos_eq(a: DataReaderQos, b: DataReaderQos) -> bool {
    &&& a.durability == b.durability
    &&& a.deadline == b.deadline
    &&& a.latency_budget == b.latency_budget
    &&& a.liveliness == b.liveliness
    &&& a.reliability == b.reliability
    &&& a.destination_order == b.destination_order
    &&& a.history == b.history
    &&& a.resource_limits == b.resource_limits
    &&& a.ownership == b.ownership
    &&& a.user_data.value@ == b.user_data.value@
}

} // verus!

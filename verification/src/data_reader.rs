//! The user-side data reader: matching against discovered writers, exclusive
//! ownership arbitration, per-instance state bookkeeping and the read and
//! take access path.

use vstd::prelude::*;

use crate::discovery::DiscoveredWriterData;
use crate::error::DdsError;
use crate::qos::{incompatible_qos_policies, spec_incompatible_qos_policies, spec_qos_compatible,
    DataReaderQos, OwnershipQosPolicyKind};
use crate::reader::WriterProxy;
use crate::types::{ChangeKind, InstanceHandle, SequenceNumber, GUID};

verus! {

/// Whether a sample was already read.
#[derive(Clone, Copy, Debug, PartialEq, Eq, Structural)]
pub enum SampleStateKind {
    /// The sample was returned by a read before.
    Read,
    /// The sample was never returned by a read.
    NotRead,
}

/// Whether the reader has seen the instance before.
#[derive(Clone, Copy, Debug, PartialEq, Eq, Structural)]
pub enum ViewStateKind {
    /// First sight of the instance in this access generation.
    New,
    /// The instance was seen before.
    NotNew,
}

/// The lifecycle state of an instance at the reader.
#[derive(Clone, Copy, Debug, PartialEq, Eq, Structural)]
pub enum InstanceStateKind {
    /// Some writer keeps the instance alive.
    Alive,
    /// A writer disposed the instance.
    NotAliveDisposed,
    /// No writer writes the instance any more.
    NotAliveNoWriters,
}

/// One matched remote writer: its proxy state, its strength for exclusive
/// ownership and the highest sequence number it announced.
pub struct MatchedWriterEntry {
    pub proxy: WriterProxy,
    pub ownership_strength: i32,
    pub last_announced: i64,
}

/// One sample as the reader stores it for read and take.
pub struct SampleEntry {
    pub data: Vec<u8>,
    pub valid_data: bool,
    pub sample_state: SampleStateKind,
    pub view_state: ViewStateKind,
    pub instance_state: InstanceStateKind,
    pub instance_handle: InstanceHandle,
    pub writer_guid: GUID,
    pub sequence_number: SequenceNumber,
}

/// The per-sample bookkeeping a read or take hands back.
#[derive(Clone, Copy, Debug)]
pub struct SampleInfo {
    pub valid_data: bool,
    pub sample_state: SampleStateKind,
    pub view_state: ViewStateKind,
    pub instance_state: InstanceStateKind,
    pub instance_handle: InstanceHandle,
    pub sequence_number: SequenceNumber,
}

/// The per-instance bookkeeping of the reader.
pub struct InstanceEntry {
    pub handle: InstanceHandle,
    pub instance_state: InstanceStateKind,
    pub view_state: ViewStateKind,
    pub owner_guid: GUID,
    pub owner_strength: i32,
    pub has_owner: bool,
}

/// The count and the last offending policy of failed match attempts.
#[derive(Clone, Copy, Debug, PartialEq, Eq, Structural)]
pub struct RequestedIncompatibleQosStatus {
    pub total_count: i32,
    pub last_policy_id: i32,
}

/// The count of successful writer matches.
#[derive(Clone, Copy, Debug, PartialEq, Eq, Structural)]
pub struct SubscriptionMatchedStatus {
    pub total_count: i32,
    pub current_count: i32,
}

/// What one match attempt decided.
#[derive(Clone, Copy, Debug, PartialEq, Eq, Structural)]
pub enum MatchResult {
    /// Topic, type and policies agree: the writer was matched.
    Matched,
    /// Topic and type agree but a policy does not.
    IncompatibleQos,
    /// The announcement is about another topic or type.
    NotMatched,
}

/// The user-side data reader.
pub struct DdsDataReader {
    pub guid: GUID,
    pub topic_name: String,
    pub data_type_name: String,
    pub qos: DataReaderQos,
    pub enabled: bool,
    pub matched_writers: Vec<MatchedWriterEntry>,
    pub samples: Vec<SampleEntry>,
    pub instances: Vec<InstanceEntry>,
    pub subscription_matched: SubscriptionMatchedStatus,
    pub requested_incompatible_qos: RequestedIncompatibleQosStatus,
    pub sample_lost_total_count: i32,
}

impl DdsDataReader {
    /// The matched-count status agrees with the matched list and the
    /// counters are in range.
    pub open spec fn wf(self) -> bool {
        &&& self.subscription_matched.current_count == self.matched_writers@.len()
        &&& 0 <= self.subscription_matched.current_count
            <= self.subscription_matched.total_count
        &&& 0 <= self.requested_incompatible_qos.total_count
        &&& 0 <= self.sample_lost_total_count
        &&& forall|i: int, j: int| 0 <= i < j < self.instances@.len()
            ==> (#[trigger] self.instances@[i]).handle.0@
                != (#[trigger] self.instances@[j]).handle.0@
        &&& forall|i: int| 0 <= i < self.matched_writers@.len() ==> {
            &&& 0 <= (#[trigger] self.matched_writers@[i]).last_announced
                < 0x7fff_ffff_ffff_ffff
            &&& self.matched_writers@[i].proxy.wf()
        }
    }

    /// A fresh disabled reader with no matches and no samples.
    pub fn new(guid: GUID, topic_name: String, data_type_name: String, qos: DataReaderQos) -> (r:
        DdsDataReader)
        ensures
            r.guid == guid,
            r.topic_name@ == topic_name@,
            r.data_type_name@ == data_type_name@,
            r.qos == qos,
            !r.enabled,
            r.matched_writers@.len() == 0,
            r.samples@.len() == 0,
            r.instances@.len() == 0,
            r.subscription_matched == (SubscriptionMatchedStatus {
                total_count: 0,
                current_count: 0,
            }),
            r.requested_incompatible_qos == (RequestedIncompatibleQosStatus {
                total_count: 0,
                last_policy_id: 0,
            }),
            r.sample_lost_total_count == 0,
            r.wf(),
    {
        DdsDataReader {
            guid,
            topic_name,
            data_type_name,
            qos,
            enabled: false,
            matched_writers: Vec::new(),
            samples: Vec::new(),
            instances: Vec::new(),
            subscription_matched: SubscriptionMatchedStatus { total_count: 0, current_count: 0 },
            requested_incompatible_qos: RequestedIncompatibleQosStatus {
                total_count: 0,
                last_policy_id: 0,
            },
            sample_lost_total_count: 0,
        }
    }

    /// The reader's identity handle.
    pub fn get_instance_handle(&self) -> (r: InstanceHandle)
        ensures
            r.0@ == self.guid.spec_to_bytes(),
    {
        InstanceHandle::from_guid(&self.guid)
    }

    /// Mark the reader enabled.
    pub fn enable(&mut self)
        ensures
            *final(self) == (DdsDataReader { enabled: true, ..*old(self) }),
    {
        self.enabled = true;
    }

    /// Whether the reader is enabled.
    pub fn is_enabled(&self) -> (r: bool)
        ensures
            r == self.enabled,
    {
        self.enabled
    }

    /// The current reader policies.
    pub fn get_qos(&self) -> (r: &DataReaderQos)
        ensures
            r == self.qos,
    {
        &self.qos
    }

    /// The matching status counters.
    pub fn get_subscription_matched_status(&self) -> (r: SubscriptionMatchedStatus)
        ensures
            r == self.subscription_matched,
    {
        self.subscription_matched
    }

    /// The incompatible-policy status counters.
    pub fn get_requested_incompatible_qos_status(&self) -> (r: RequestedIncompatibleQosStatus)
        ensures
            r == self.requested_incompatible_qos,
    {
        self.requested_incompatible_qos
    }

    /// Consider one discovered writer for a match.
    ///
    /// A writer of the same topic and type is matched when every offered
    /// policy satisfies the requested one; otherwise the incompatible-policy
    /// counter moves up and the last offending policy is recorded. An
    /// announcement about another topic or type changes nothing.
    /// The writer becomes reachable at its announced locators, or at the
    /// participant defaults where the announcement names none.
    pub fn add_matched_writer(
        &mut self,
        discovered_writer_data: &DiscoveredWriterData,
        default_unicast_locator_list: &Vec<crate::types::Locator>,
        default_multicast_locator_list: &Vec<crate::types::Locator>,
    ) -> (r: MatchResult)
        requires
            old(self).wf(),
            old(self).subscription_matched.total_count < 0x7fff_ffff,
            old(self).requested_incompatible_qos.total_count < 0x7fff_ffff,
        ensures
            final(self).wf(),
            spec_add_matched_writer_rel(
                *old(self),
                *final(self),
                *discovered_writer_data,
                default_unicast_locator_list@,
                default_multicast_locator_list@,
            ),
            final(self).guid == old(self).guid,
            final(self).qos == old(self).qos,
            final(self).samples == old(self).samples,
            final(self).instances == old(self).instances,
            r == MatchResult::NotMatched ==> *final(self) == *old(self),
            r == MatchResult::NotMatched <==> !(discovered_writer_data.dds_publication_data.topic_name@
                == old(self).topic_name@ && discovered_writer_data.dds_publication_data.data_type_name@
                == old(self).data_type_name@),
            r == MatchResult::Matched <==> (discovered_writer_data.dds_publication_data.topic_name@
                == old(self).topic_name@ && discovered_writer_data.dds_publication_data.data_type_name@
                == old(self).data_type_name@ && spec_qos_compatible(
                discovered_writer_data.dds_publication_data.qos,
                old(self).qos,
            )),
            r == MatchResult::Matched ==> {
                &&& final(self).matched_writers@.len() == old(self).matched_writers@.len() + 1
                &&& final(self).matched_writers@.last().proxy.remote_writer_guid
                    == discovered_writer_data.remote_writer_guid
                &&& final(self).matched_writers@.last().ownership_strength
                    == discovered_writer_data.dds_publication_data.qos.ownership_strength.value
                &&& final(self).subscription_matched == (SubscriptionMatchedStatus {
                    total_count: (old(self).subscription_matched.total_count + 1) as i32,
                    current_count: (old(self).subscription_matched.current_count + 1) as i32,
                })
                &&& final(self).requested_incompatible_qos == old(
                    self,
                ).requested_incompatible_qos
            },
            r == MatchResult::IncompatibleQos ==> {
                &&& final(self).matched_writers == old(self).matched_writers
                &&& final(self).subscription_matched == old(self).subscription_matched
                &&& final(self).requested_incompatible_qos.total_count == old(
                    self,
                ).requested_incompatible_qos.total_count + 1
                &&& final(self).requested_incompatible_qos.last_policy_id
                    == spec_incompatible_qos_policies(
                    discovered_writer_data.dds_publication_data.qos,
                    old(self).qos,
                ).last()
            },
    {
        let same_topic = string_eq(
            &discovered_writer_data.dds_publication_data.topic_name,
            &self.topic_name,
        );
        let same_type = string_eq(
            &discovered_writer_data.dds_publication_data.data_type_name,
            &self.data_type_name,
        );
        if !(same_topic && same_type) {
            return MatchResult::NotMatched;
        }
        let incompatible = incompatible_qos_policies(
            &discovered_writer_data.dds_publication_data.qos,
            &self.qos,
        );
        if incompatible.len() == 0 {
            let unicast = if discovered_writer_data.unicast_locator_list.len() > 0 {
                crate::participant::clone_locator_list(
                    &discovered_writer_data.unicast_locator_list,
                )
            } else {
                crate::participant::clone_locator_list(default_unicast_locator_list)
            };
            let multicast = if discovered_writer_data.multicast_locator_list.len() > 0 {
                crate::participant::clone_locator_list(
                    &discovered_writer_data.multicast_locator_list,
                )
            } else {
                crate::participant::clone_locator_list(default_multicast_locator_list)
            };
            let proxy = WriterProxy::new(
                discovered_writer_data.remote_writer_guid,
                unicast,
                multicast,
                crate::types::entityid_unknown(),
            );
            self.matched_writers.push(
                MatchedWriterEntry {
                    proxy,
                    ownership_strength:
                        discovered_writer_data.dds_publication_data.qos.ownership_strength.value,
                    last_announced: 0,
                },
            );
            self.subscription_matched = SubscriptionMatchedStatus {
                total_count: self.subscription_matched.total_count + 1,
                current_count: self.subscription_matched.current_count + 1,
            };
            MatchResult::Matched
        } else {
            self.requested_incompatible_qos = RequestedIncompatibleQosStatus {
                total_count: self.requested_incompatible_qos.total_count + 1,
                last_policy_id: incompatible[incompatible.len() - 1],
            };
            MatchResult::IncompatibleQos
        }
    }

    /// Forget the matched writer with this identity, if one is matched.
    pub fn remove_matched_writer(&mut self, writer_guid: &GUID)
        requires
            old(self).wf(),
        ensures
            spec_remove_matched_writer_rel(*old(self), *final(self), *writer_guid),
            final(self).guid == old(self).guid,
            final(self).qos == old(self).qos,
            final(self).samples == old(self).samples,
            final(self).instances == old(self).instances,
            final(self).subscription_matched.total_count == old(
                self,
            ).subscription_matched.total_count,
            final(self).matched_writers@ == old(self).matched_writers@.filter(
                |e: MatchedWriterEntry|
                    e.proxy.remote_writer_guid.spec_to_bytes() != writer_guid.spec_to_bytes(),
            ),
            final(self).subscription_matched.current_count
                == final(self).matched_writers@.len(),
            final(self).wf(),
    {
        proof {
            old(self).matched_writers@.lemma_filter_len(
                |e: MatchedWriterEntry|
                    e.proxy.remote_writer_guid.spec_to_bytes() != writer_guid.spec_to_bytes(),
            );
        }
        let ghost pred = |e: MatchedWriterEntry|
            e.proxy.remote_writer_guid.spec_to_bytes() != writer_guid.spec_to_bytes();
        let ghost pre = self.matched_writers@;
        let pre_len: usize = self.matched_writers.len();
        let mut i: usize = 0;
        let ghost j: int = 0;
        proof {
            reveal(Seq::filter);
            assert(pre.take(0int).filter(pred) =~= Seq::<MatchedWriterEntry>::empty());
            assert(self.matched_writers@ =~= pre.take(0int).filter(pred) + pre.skip(0int));
        }
        while i < self.matched_writers.len()
            invariant
                self.guid == old(self).guid,
                self.topic_name == old(self).topic_name,
                self.data_type_name == old(self).data_type_name,
                self.qos == old(self).qos,
                self.enabled == old(self).enabled,
                self.samples == old(self).samples,
                self.instances == old(self).instances,
                self.subscription_matched == old(self).subscription_matched,
                self.requested_incompatible_qos == old(self).requested_incompatible_qos,
                self.sample_lost_total_count == old(self).sample_lost_total_count,
                0 <= j <= pre.len(),
                pre.len() == pre_len,
                pre_len == old(self).subscription_matched.current_count,
                old(self).wf(),
                i == pre.take(j).filter(pred).len(),
                i <= j,
                self.matched_writers@ == pre.take(j).filter(pred) + pre.skip(j),
                pred == (|e: MatchedWriterEntry|
                    e.proxy.remote_writer_guid.spec_to_bytes() != writer_guid.spec_to_bytes()),
            decreases self.matched_writers@.len() - i,
        {
            proof {
                reveal(Seq::filter);
                pre.take(j).lemma_filter_len(pred);
                assert(j < pre.len());
                assert(self.matched_writers@[i as int] == pre.skip(j)[0]);
                assert(pre.skip(j)[0] == pre[j]);
                assert(pre.take(j + 1).drop_last() =~= pre.take(j));
                assert(pre.take(j + 1).last() == pre[j]);
            }
            let same = crate::history_cache::guid_eq(
                &self.matched_writers[i].proxy.remote_writer_guid,
                writer_guid,
            );
            if same {
                self.matched_writers.remove(i);
                proof {
                    assert(!pred(pre[j]));
                    assert(pre.take(j + 1).filter(pred) =~= pre.take(j).filter(pred));
                    assert(self.matched_writers@ =~= pre.take(j + 1).filter(pred) + pre.skip(
                        j + 1,
                    ));
                }
            } else {
                proof {
                    assert(pred(pre[j]));
                    assert(pre.take(j + 1).filter(pred) =~= pre.take(j).filter(pred).push(
                        pre[j],
                    ));
                    assert(self.matched_writers@ =~= pre.take(j + 1).filter(pred) + pre.skip(
                        j + 1,
                    ));
                }
                i = i + 1;
            }
            proof {
                j = j + 1;
            }
        }
        proof {
            assert(pre.take(pre.len() as int) =~= pre);
            assert(self.matched_writers@ =~= pre.filter(pred));
            pre.lemma_filter_len(pred);
            assert forall|m: int| 0 <= m < self.matched_writers@.len()
                implies 0 <= (#[trigger] self.matched_writers@[m]).last_announced
                    < 0x7fff_ffff_ffff_ffff && self.matched_writers@[m].proxy.wf() by {
                crate::history_cache::lemma_filter_member_of(pre, pred, m);
                let w = choose|w: int| 0 <= w < pre.len() && pre[w]
                    == #[trigger] pre.filter(pred)[m];
                assert(0 <= pre[w].last_announced < 0x7fff_ffff_ffff_ffff
                    && pre[w].proxy.wf());
            }
        }
        let new_len = self.matched_writers.len();
        self.subscription_matched = SubscriptionMatchedStatus {
            total_count: self.subscription_matched.total_count,
            current_count: new_len as i32,
        };
    }
}

/// Compare two strings by their characters.
pub fn string_eq(a: &String, b: &String) -> (r: bool)
    ensures
        r == (a@ == b@),
{
    let r: bool = *a == *b;
    r
}


/// The instance state after a change of this kind arrives.
///
/// A live sample makes the instance alive; a dispose marks it disposed; an
/// unregister leaves it without writers. An instance never seen before
/// starts in the state the change gives it.
pub open spec fn spec_next_instance_state(
    prev: Option<InstanceStateKind>,
    kind: ChangeKind,
) -> InstanceStateKind {
    match kind {
        ChangeKind::Alive => InstanceStateKind::Alive,
        ChangeKind::NotAliveDisposed => InstanceStateKind::NotAliveDisposed,
        ChangeKind::NotAliveUnregistered => InstanceStateKind::NotAliveNoWriters,
    }
}

/// The view state after a change arrives: new at first sight or when the
/// instance comes back to life, not new otherwise.
pub open spec fn spec_next_view_state(
    prev: Option<(InstanceStateKind, ViewStateKind)>,
    kind: ChangeKind,
) -> ViewStateKind {
    match prev {
        Option::None => ViewStateKind::New,
        Option::Some((st, _)) => if st != InstanceStateKind::Alive && kind == ChangeKind::Alive {
            ViewStateKind::New
        } else {
            ViewStateKind::NotNew
        },
    }
}

/// True when the bytes of `a` order strictly before those of `b`.
pub open spec fn spec_bytes_lt(a: Seq<u8>, b: Seq<u8>) -> bool
    decreases a.len(),
{
    if b.len() == 0 {
        false
    } else if a.len() == 0 {
        true
    } else if a[0] != b[0] {
        a[0] < b[0]
    } else {
        spec_bytes_lt(a.skip(1), b.skip(1))
    }
}

/// Compare two identifiers byte for byte.
pub fn guid_lt(a: &GUID, b: &GUID) -> (r: bool)
    ensures
        r == spec_bytes_lt(a.spec_to_bytes(), b.spec_to_bytes()),
{
    let ab = a.to_bytes();
    let bb = b.to_bytes();
    let mut i: usize = 0;
    proof {
        assert(ab@.skip(0int) =~= ab@);
        assert(bb@.skip(0int) =~= bb@);
    }
    while i < 16
        invariant
            0 <= i <= 16,
            ab@ == a.spec_to_bytes(),
            bb@ == b.spec_to_bytes(),
            ab@.len() == 16,
            bb@.len() == 16,
            forall|j: int| 0 <= j < i ==> ab@[j] == bb@[j],
            spec_bytes_lt(a.spec_to_bytes(), b.spec_to_bytes()) == spec_bytes_lt(
                ab@.skip(i as int),
                bb@.skip(i as int),
            ),
        decreases 16 - i,
    {
        proof {
            assert(ab@.skip(i as int)[0] == ab@[i as int]);
            assert(bb@.skip(i as int)[0] == bb@[i as int]);
        }
        if ab[i] != bb[i] {
            proof {
                assert(ab@.skip(i as int)[0] == ab@[i as int]);
                assert(bb@.skip(i as int)[0] == bb@[i as int]);
            }
            return ab[i] < bb[i];
        }
        proof {
            assert(ab@.skip(i as int)[0] == ab@[i as int]);
            assert(bb@.skip(i as int)[0] == bb@[i as int]);
            assert(ab@.skip(i as int).skip(1) =~= ab@.skip(i + 1));
            assert(bb@.skip(i as int).skip(1) =~= bb@.skip(i + 1));
        }
        i = i + 1;
    }
    proof {
        assert(ab@.skip(16int).len() == 0);
        assert(bb@.skip(16int).len() == 0);
    }
    false
}

/// The new writer takes the instance over: it is strictly stronger, or
/// equally strong with the smaller identifier.
pub open spec fn spec_takes_over(
    owner_guid: GUID,
    owner_strength: int,
    writer_guid: GUID,
    writer_strength: int,
) -> bool {
    ||| writer_strength > owner_strength
    ||| (writer_strength == owner_strength && spec_bytes_lt(
        writer_guid.spec_to_bytes(),
        owner_guid.spec_to_bytes(),
    ))
}

/// Exclusive ownership permits a writer: the instance is unknown or
/// unowned, the writer is the owner, or it takes the instance over.
pub open spec fn spec_ownership_permits(
    instances: Seq<InstanceEntry>,
    handle: Seq<u8>,
    writer_guid: GUID,
    writer_strength: int,
) -> bool {
    ||| (forall|k: int| 0 <= k < instances.len()
        ==> (#[trigger] instances[k]).handle.0@ != handle)
    ||| exists|k: int|
        {
            &&& 0 <= k < instances.len()
            &&& (#[trigger] instances[k]).handle.0@ == handle
            &&& {
                ||| !instances[k].has_owner
                ||| instances[k].owner_guid.spec_to_bytes() == writer_guid.spec_to_bytes()
                ||| spec_takes_over(
                    instances[k].owner_guid,
                    instances[k].owner_strength as int,
                    writer_guid,
                    writer_strength,
                )
            }
        }
}

impl DdsDataReader {
    /// The index of the instance entry for this handle, if one exists.
    fn find_instance(&self, handle: &InstanceHandle) -> (r: Option<usize>)
        ensures
            match r {
                Option::Some(k) => 0 <= k < self.instances@.len()
                    && self.instances@[k as int].handle.0@ == handle.0@,
                Option::None => forall|k: int| 0 <= k < self.instances@.len()
                    ==> self.instances@[k].handle.0@ != handle.0@,
            },
    {
        let mut i: usize = 0;
        while i < self.instances.len()
            invariant
                0 <= i <= self.instances@.len(),
                forall|k: int| 0 <= k < i ==> self.instances@[k].handle.0@ != handle.0@,
            decreases self.instances@.len() - i,
        {
            if crate::types::bytes_eq(&self.instances[i].handle.0, &handle.0) {
                return Option::Some(i);
            }
            i = i + 1;
        }
        Option::None
    }

    /// Whether exclusive ownership lets this writer update this instance.
    ///
    /// Under shared ownership every writer may. Under exclusive ownership
    /// the owner may, an unowned instance admits any writer, and another
    /// writer only when it takes the instance over by strength, with the
    /// smaller identifier breaking ties.
    pub fn ownership_allows(
        &self,
        instance_handle: &InstanceHandle,
        writer_guid: &GUID,
        writer_strength: i32,
    ) -> (r: bool)
        requires
            self.wf(),
        ensures
            self.qos.ownership.kind == OwnershipQosPolicyKind::Shared ==> r,
            self.qos.ownership.kind == OwnershipQosPolicyKind::Exclusive ==> r
                == spec_ownership_permits(
                self.instances@,
                instance_handle.0@,
                *writer_guid,
                writer_strength as int,
            ),
    {
        match self.qos.ownership.kind {
            OwnershipQosPolicyKind::Shared => true,
            OwnershipQosPolicyKind::Exclusive => {
                match self.find_instance(instance_handle) {
                    Option::None => true,
                    Option::Some(k) => {
                        let entry = &self.instances[k];
                        if !entry.has_owner {
                            proof {
                                assert(self.instances@[k as int].handle.0@
                                    == instance_handle.0@);
                            }
                            true
                        } else if crate::history_cache::guid_eq(
                            &entry.owner_guid,
                            writer_guid,
                        ) {
                            true
                        } else if writer_strength > entry.owner_strength {
                            true
                        } else if writer_strength == entry.owner_strength && guid_lt(
                            writer_guid,
                            &entry.owner_guid,
                        ) {
                            true
                        } else {
                            proof {
                                assert forall|m: int|
                                    0 <= m < self.instances@.len()
                                        && (#[trigger] self.instances@[m]).handle.0@
                                        == instance_handle.0@
                                    implies m == k as int by {
                                    if m < k as int {
                                        assert(self.instances@[m].handle.0@
                                            != self.instances@[k as int].handle.0@);
                                    } else if m > k as int {
                                        assert(self.instances@[k as int].handle.0@
                                            != self.instances@[m].handle.0@);
                                    }
                                }
                            }
                            false
                        }
                    },
                }
            },
        }
    }
}


/// The instance states recorded for this handle, first match.
pub open spec fn spec_instance_view_of(s: Seq<InstanceEntry>, h: Seq<u8>) -> Option<(
    InstanceStateKind,
    ViewStateKind,
)>
    decreases s.len(),
{
    if s.len() == 0 {
        Option::None
    } else if s[0].handle.0@ == h {
        Option::Some((s[0].instance_state, s[0].view_state))
    } else {
        spec_instance_view_of(s.skip(1), h)
    }
}

/// The first-match lookup agrees with any index whose predecessors all miss.
proof fn lemma_instance_view_at(s: Seq<InstanceEntry>, h: Seq<u8>, k: int)
    requires
        0 <= k < s.len(),
        s[k].handle.0@ == h,
        forall|m: int| 0 <= m < k ==> s[m].handle.0@ != h,
    ensures
        spec_instance_view_of(s, h) == Option::Some((s[k].instance_state, s[k].view_state)),
    decreases s.len(),
{
    if k > 0 {
        lemma_instance_view_at(s.skip(1), h, k - 1);
    }
}

/// With no matching entry the lookup misses.
proof fn lemma_instance_view_none(s: Seq<InstanceEntry>, h: Seq<u8>)
    requires
        forall|m: int| 0 <= m < s.len() ==> s[m].handle.0@ != h,
    ensures
        spec_instance_view_of(s, h) is None,
    decreases s.len(),
{
    if s.len() > 0 {
        lemma_instance_view_none(s.skip(1), h);
    }
}

impl DdsDataReader {
    /// Accept or suppress one received change, and record it.
    ///
    /// A change is suppressed only by exclusive ownership: a weaker writer
    /// than the current owner of the instance does not update it. An
    /// accepted change appends one sample, moves the instance through its
    /// lifecycle, and hands the instance to the accepted writer when
    /// ownership is exclusive.
    pub fn process_received_change(
        &mut self,
        writer_guid: &GUID,
        writer_strength: i32,
        kind: ChangeKind,
        sequence_number: SequenceNumber,
        instance_handle: InstanceHandle,
        data: Vec<u8>,
    ) -> (accepted: bool)
        requires
            old(self).wf(),
        ensures
            final(self).wf(),
            final(self).guid == old(self).guid,
            final(self).qos == old(self).qos,
            final(self).topic_name == old(self).topic_name,
            final(self).data_type_name == old(self).data_type_name,
            final(self).enabled == old(self).enabled,
            final(self).matched_writers == old(self).matched_writers,
            final(self).subscription_matched == old(self).subscription_matched,
            final(self).requested_incompatible_qos == old(self).requested_incompatible_qos,
            final(self).sample_lost_total_count == old(self).sample_lost_total_count,
            accepted == (old(self).qos.ownership.kind == OwnershipQosPolicyKind::Shared
                || spec_ownership_permits(
                old(self).instances@,
                instance_handle.0@,
                *writer_guid,
                writer_strength as int,
            )),
            !accepted ==> final(self).samples == old(self).samples && final(self).instances
                == old(self).instances,
            accepted ==> {
                let prev = spec_instance_view_of(old(self).instances@, instance_handle.0@);
                let st = spec_next_instance_state(
                    match prev {
                        Option::Some((p, _)) => Option::Some(p),
                        Option::None => Option::None,
                    },
                    kind,
                );
                let vw = spec_next_view_state(prev, kind);
                &&& final(self).samples@.len() == old(self).samples@.len() + 1
                &&& final(self).samples@.take(old(self).samples@.len() as int) == old(
                    self,
                ).samples@
                &&& {
                    let last = final(self).samples@.last();
                    &&& last.data@ == data@
                    &&& last.valid_data == (kind == ChangeKind::Alive)
                    &&& last.sample_state == SampleStateKind::NotRead
                    &&& last.instance_state == st
                    &&& last.view_state == vw
                    &&& last.instance_handle.0@ == instance_handle.0@
                    &&& last.writer_guid == *writer_guid
                    &&& last.sequence_number == sequence_number
                }
                &&& spec_instance_view_of(final(self).instances@, instance_handle.0@)
                    == Option::Some((st, vw))
            },
    {
        let allowed = match self.qos.ownership.kind {
            OwnershipQosPolicyKind::Shared => true,
            OwnershipQosPolicyKind::Exclusive => self.ownership_allows(
                &instance_handle,
                writer_guid,
                writer_strength,
            ),
        };
        if !allowed {
            return false;
        }
        let exclusive = match self.qos.ownership.kind {
            OwnershipQosPolicyKind::Shared => false,
            OwnershipQosPolicyKind::Exclusive => true,
        };
        let ghost pre_instances = self.instances@;
        let (st, vw) = match self.find_instance(&instance_handle) {
            Option::Some(k) => {
                proof {
                    assert forall|m: int| 0 <= m < k implies pre_instances[m].handle.0@
                        != instance_handle.0@ by {}
                }
                let prev_state = self.instances[k].instance_state;
                let prev_view = self.instances[k].view_state;
                proof {
                    lemma_instance_view_at(pre_instances, instance_handle.0@, k as int);
                }
                let st = next_instance_state(kind);
                let vw = if prev_state != InstanceStateKind::Alive && kind == ChangeKind::Alive {
                    ViewStateKind::New
                } else {
                    ViewStateKind::NotNew
                };
                let owner_guid = if exclusive {
                    *writer_guid
                } else {
                    self.instances[k].owner_guid
                };
                let owner_strength = if exclusive {
                    writer_strength
                } else {
                    self.instances[k].owner_strength
                };
                let has_owner = if exclusive {
                    true
                } else {
                    self.instances[k].has_owner
                };
                let handle_copy = self.instances[k].handle;
                let updated = InstanceEntry {
                    handle: handle_copy,
                    instance_state: st,
                    view_state: vw,
                    owner_guid,
                    owner_strength,
                    has_owner,
                };
                self.instances.set(k, updated);
                proof {
                    assert(self.instances@[k as int].handle.0@ == instance_handle.0@);
                    assert forall|m: int| 0 <= m < k implies self.instances@[m].handle.0@
                        != instance_handle.0@ by {
                        assert(self.instances@[m] == pre_instances[m]);
                    }
                    lemma_instance_view_at(self.instances@, instance_handle.0@, k as int);
                }
                (st, vw)
            },
            Option::None => {
                proof {
                    lemma_instance_view_none(pre_instances, instance_handle.0@);
                }
                let st = next_instance_state(kind);
                let vw = ViewStateKind::New;
                let entry = InstanceEntry {
                    handle: instance_handle,
                    instance_state: st,
                    view_state: vw,
                    owner_guid: *writer_guid,
                    owner_strength: writer_strength,
                    has_owner: exclusive,
                };
                self.instances.push(entry);
                proof {
                    let k = self.instances@.len() - 1;
                    assert(self.instances@[k].handle.0@ == instance_handle.0@);
                    assert forall|m: int| 0 <= m < k implies self.instances@[m].handle.0@
                        != instance_handle.0@ by {
                        assert(self.instances@[m] == pre_instances[m]);
                    }
                    lemma_instance_view_at(self.instances@, instance_handle.0@, k);
                }
                (st, vw)
            },
        };
        let ghost pre_samples = self.samples@;
        self.samples.push(
            SampleEntry {
                data,
                valid_data: match kind {
                    ChangeKind::Alive => true,
                    _ => false,
                },
                sample_state: SampleStateKind::NotRead,
                view_state: vw,
                instance_state: st,
                instance_handle,
                writer_guid: *writer_guid,
                sequence_number,
            },
        );
        proof {
            assert(self.samples@.take(pre_samples.len() as int) =~= pre_samples);
        }
        true
    }

    /// Whether every matched writer's announced history has fully arrived.
    ///
    /// True when, for every matched writer, every sequence number from one
    /// up to the writer's last announced number is known.
    pub fn is_historical_data_received(&self) -> (r: bool)
        requires
            self.wf(),
        ensures
            r <==> forall|k: int, s: int|
                0 <= k < self.matched_writers@.len() && 1 <= s
                    <= (#[trigger] self.matched_writers@[k]).last_announced
                    ==> #[trigger] self.matched_writers@[k].proxy.spec_knows(s),
    {
        let mut k: usize = 0;
        while k < self.matched_writers.len()
            invariant
                self.wf(),
                0 <= k <= self.matched_writers@.len(),
                forall|m: int, s: int|
                    0 <= m < k && 1 <= s <= (#[trigger] self.matched_writers@[m]).last_announced
                        ==> #[trigger] self.matched_writers@[m].proxy.spec_knows(s),
            decreases self.matched_writers@.len() - k,
        {
            let last = self.matched_writers[k].last_announced;
            let mut s: i64 = 1;
            while s <= last
                invariant
                    self.wf(),
                    0 <= k < self.matched_writers@.len(),
                    1 <= s,
                    s <= last + 1,
                    last == self.matched_writers@[k as int].last_announced,
                    last < 0x7fff_ffff_ffff_ffff,
                    forall|t: int| 1 <= t < s
                        ==> #[trigger] self.matched_writers@[k as int].proxy.spec_knows(t),
                decreases last + 1 - s,
            {
                if !self.matched_writers[k].proxy.knows(s) {
                    proof {
                        assert(1 <= s as int
                            <= self.matched_writers@[k as int].last_announced);
                        assert(!self.matched_writers@[k as int].proxy.spec_knows(s as int));
                    }
                    return false;
                }
                s = s + 1;
            }
            k = k + 1;
        }
        true
    }
}

/// The instance state a change of this kind drives an instance into.
fn next_instance_state(kind: ChangeKind) -> (r: InstanceStateKind)
    ensures
        r == spec_next_instance_state(Option::None, kind),
        r == spec_next_instance_state(Option::Some(InstanceStateKind::Alive), kind),
        forall|p: Option<InstanceStateKind>| r == spec_next_instance_state(p, kind),
{
    match kind {
        ChangeKind::Alive => InstanceStateKind::Alive,
        ChangeKind::NotAliveDisposed => InstanceStateKind::NotAliveDisposed,
        ChangeKind::NotAliveUnregistered => InstanceStateKind::NotAliveNoWriters,
    }
}


/// True when the sequence holds this sample state.
pub open spec fn spec_has_sample_state(s: Seq<SampleStateKind>, v: SampleStateKind) -> bool {
    exists|i: int| 0 <= i < s.len() && #[trigger] s[i] == v
}

/// True when the sequence holds this view state.
pub open spec fn spec_has_view_state(s: Seq<ViewStateKind>, v: ViewStateKind) -> bool {
    exists|i: int| 0 <= i < s.len() && #[trigger] s[i] == v
}

/// True when the sequence holds this instance state.
pub open spec fn spec_has_instance_state(s: Seq<InstanceStateKind>, v: InstanceStateKind) -> bool {
    exists|i: int| 0 <= i < s.len() && #[trigger] s[i] == v
}

/// True when the sample passes the three state masks and the instance bound.
pub open spec fn spec_sample_matches(
    e: SampleEntry,
    ss: Seq<SampleStateKind>,
    vs: Seq<ViewStateKind>,
    ist: Seq<InstanceStateKind>,
    h: Option<InstanceHandle>,
) -> bool {
    &&& spec_has_sample_state(ss, e.sample_state)
    &&& spec_has_view_state(vs, e.view_state)
    &&& spec_has_instance_state(ist, e.instance_state)
    &&& match h {
        Option::Some(hh) => e.instance_handle.0@ == hh.0@,
        Option::None => true,
    }
}

/// The bookkeeping handed back for one stored sample.
pub open spec fn spec_info_of(e: SampleEntry) -> SampleInfo {
    SampleInfo {
        valid_data: e.valid_data,
        sample_state: e.sample_state,
        view_state: e.view_state,
        instance_state: e.instance_state,
        instance_handle: e.instance_handle,
        sequence_number: e.sequence_number,
    }
}

/// The number of samples an access may return: a positive count caps it;
/// a negative count, the unbounded-length convention, takes everything.
pub open spec fn spec_effective_cap(max_samples: i32, stored: nat) -> int {
    if max_samples > 0 {
        max_samples as int
    } else {
        stored as int
    }
}

/// The first `n` matching samples, in order.
pub open spec fn spec_taken(
    s: Seq<SampleEntry>,
    pred: spec_fn(SampleEntry) -> bool,
    n: int,
) -> Seq<SampleEntry>
    decreases s.len(),
{
    if s.len() == 0 || n <= 0 {
        Seq::empty()
    } else if pred(s[0]) {
        seq![s[0]] + spec_taken(s.skip(1), pred, n - 1)
    } else {
        spec_taken(s.skip(1), pred, n)
    }
}

/// The store after the first `n` matching samples left.
pub open spec fn spec_after_take(
    s: Seq<SampleEntry>,
    pred: spec_fn(SampleEntry) -> bool,
    n: int,
) -> Seq<SampleEntry>
    decreases s.len(),
{
    if s.len() == 0 || n <= 0 {
        s
    } else if pred(s[0]) {
        spec_after_take(s.skip(1), pred, n - 1)
    } else {
        seq![s[0]] + spec_after_take(s.skip(1), pred, n)
    }
}

/// The same sample marked as read.
pub open spec fn spec_mark_read(e: SampleEntry) -> SampleEntry {
    SampleEntry { sample_state: SampleStateKind::Read, ..e }
}

/// The store after the first `n` matching samples were marked read.
pub open spec fn spec_after_read(
    s: Seq<SampleEntry>,
    pred: spec_fn(SampleEntry) -> bool,
    n: int,
) -> Seq<SampleEntry>
    decreases s.len(),
{
    if s.len() == 0 || n <= 0 {
        s
    } else if pred(s[0]) {
        seq![spec_mark_read(s[0])] + spec_after_read(s.skip(1), pred, n - 1)
    } else {
        seq![s[0]] + spec_after_read(s.skip(1), pred, n)
    }
}

/// Copy a byte vector.
fn clone_bytes(v: &Vec<u8>) -> (r: Vec<u8>)
    ensures
        r@ == v@,
{
    let mut r: Vec<u8> = Vec::new();
    let mut i: usize = 0;
    while i < v.len()
        invariant
            0 <= i <= v@.len(),
            r@ == v@.take(i as int),
        decreases v@.len() - i,
    {
        r.push(v[i]);
        i = i + 1;
        proof {
            assert(r@ =~= v@.take(i as int));
        }
    }
    proof {
        assert(r@ =~= v@);
    }
    r
}

/// Whether a sample state is in the mask.
fn mask_has_sample_state(mask: &[SampleStateKind], v: SampleStateKind) -> (r: bool)
    ensures
        r == spec_has_sample_state(mask@, v),
{
    let mut i: usize = 0;
    while i < mask.len()
        invariant
            0 <= i <= mask@.len(),
            forall|j: int| 0 <= j < i ==> mask@[j] != v,
        decreases mask@.len() - i,
    {
        if mask[i] == v {
            return true;
        }
        i = i + 1;
    }
    false
}

/// Whether a view state is in the mask.
fn mask_has_view_state(mask: &[ViewStateKind], v: ViewStateKind) -> (r: bool)
    ensures
        r == spec_has_view_state(mask@, v),
{
    let mut i: usize = 0;
    while i < mask.len()
        invariant
            0 <= i <= mask@.len(),
            forall|j: int| 0 <= j < i ==> mask@[j] != v,
        decreases mask@.len() - i,
    {
        if mask[i] == v {
            return true;
        }
        i = i + 1;
    }
    false
}

/// Whether an instance state is in the mask.
fn mask_has_instance_state(mask: &[InstanceStateKind], v: InstanceStateKind) -> (r: bool)
    ensures
        r == spec_has_instance_state(mask@, v),
{
    let mut i: usize = 0;
    while i < mask.len()
        invariant
            0 <= i <= mask@.len(),
            forall|j: int| 0 <= j < i ==> mask@[j] != v,
        decreases mask@.len() - i,
    {
        if mask[i] == v {
            return true;
        }
        i = i + 1;
    }
    false
}

impl DdsDataReader {
    /// Whether one sample passes the masks and the instance bound.
    fn sample_matches(
        e: &SampleEntry,
        sample_states: &[SampleStateKind],
        view_states: &[ViewStateKind],
        instance_states: &[InstanceStateKind],
        specific_instance_handle: &Option<InstanceHandle>,
    ) -> (r: bool)
        ensures
            r == spec_sample_matches(
                *e,
                sample_states@,
                view_states@,
                instance_states@,
                *specific_instance_handle,
            ),
    {
        let state_ok = mask_has_sample_state(sample_states, e.sample_state)
            && mask_has_view_state(view_states, e.view_state) && mask_has_instance_state(
            instance_states,
            e.instance_state,
        );
        let handle_ok = match specific_instance_handle {
            Option::Some(hh) => crate::types::bytes_eq(&e.instance_handle.0, &hh.0),
            Option::None => true,
        };
        state_ok && handle_ok
    }

    /// Take up to `max_samples` matching samples out of the store.
    ///
    /// The first matching samples leave the store and come back with their
    /// bookkeeping; with nothing matching the take fails with `NoData` and
    /// the store stays as it is.
    pub fn take(
        &mut self,
        max_samples: i32,
        sample_states: &[SampleStateKind],
        view_states: &[ViewStateKind],
        instance_states: &[InstanceStateKind],
        specific_instance_handle: Option<InstanceHandle>,
    ) -> (r: Result<Vec<(Vec<u8>, SampleInfo)>, DdsError>)
        requires
            old(self).wf(),
        ensures
            final(self).wf(),
            *final(self) == (DdsDataReader { samples: final(self).samples, ..*old(self) }),
            max_samples == 0 ==> (r matches Result::Err(e) && e == DdsError::BadParameter)
                && final(self).samples@ == old(self).samples@,
            max_samples != 0 ==> match r {
                Ok(v) => {
                    let pred = |e: SampleEntry| spec_sample_matches(
                        e,
                        sample_states@,
                        view_states@,
                        instance_states@,
                        specific_instance_handle,
                    );
                    let tk = spec_taken(old(self).samples@, pred, spec_effective_cap(max_samples, old(self).samples@.len()));
                    &&& tk.len() > 0
                    &&& v@.len() == tk.len()
                    &&& forall|i: int| 0 <= i < v@.len()
                        ==> (#[trigger] v@[i]).0@ == tk[i].data@ && v@[i].1 == spec_info_of(
                            tk[i],
                        )
                    &&& final(self).samples@ == spec_after_take(
                        old(self).samples@,
                        pred,
                        spec_effective_cap(max_samples, old(self).samples@.len()),
                    )
                },
                Err(e) => {
                    let pred = |e: SampleEntry| spec_sample_matches(
                        e,
                        sample_states@,
                        view_states@,
                        instance_states@,
                        specific_instance_handle,
                    );
                    &&& e == DdsError::NoData
                    &&& spec_taken(old(self).samples@, pred, spec_effective_cap(max_samples, old(self).samples@.len())).len() == 0
                    &&& final(self).samples@ == old(self).samples@
                },
            },
    {
        if max_samples == 0 {
            return Err(DdsError::BadParameter);
        }
        let cap: usize = if max_samples > 0 {
            max_samples as usize
        } else {
            self.samples.len()
        };
        let ghost capg: int = cap as int;
        let ghost pred = |e: SampleEntry| spec_sample_matches(
            e,
            sample_states@,
            view_states@,
            instance_states@,
            specific_instance_handle,
        );
        let ghost pre = self.samples@;
        let mut v: Vec<(Vec<u8>, SampleInfo)> = Vec::new();
        let ghost taken_entries: Seq<SampleEntry> = Seq::empty();
        let mut i: usize = 0;
        let ghost j: int = 0;
        proof {
            assert(pre.skip(0int) =~= pre);
            assert(self.samples@.take(0int) =~= Seq::<SampleEntry>::empty());
            assert(self.samples@ =~= self.samples@.take(i as int) + pre.skip(j));
            assert(Seq::empty() + spec_taken(pre.skip(0int), pred, capg)
                =~= spec_taken(pre, pred, capg));
        }
        while i < self.samples.len()
            invariant
                old(self).wf(),
                self.guid == old(self).guid,
                self.topic_name == old(self).topic_name,
                self.data_type_name == old(self).data_type_name,
                self.qos == old(self).qos,
                self.enabled == old(self).enabled,
                self.matched_writers == old(self).matched_writers,
                self.instances == old(self).instances,
                self.subscription_matched == old(self).subscription_matched,
                self.requested_incompatible_qos == old(self).requested_incompatible_qos,
                self.sample_lost_total_count == old(self).sample_lost_total_count,
                capg == cap as int,
                capg == spec_effective_cap(max_samples, pre.len()),
                pre == old(self).samples@,
                0 <= j <= pre.len(),
                0 <= i <= self.samples@.len(),
                i <= j,
                v@.len() == taken_entries.len(),
                v@.len() <= capg,
                forall|m: int| 0 <= m < v@.len()
                    ==> (#[trigger] v@[m]).0@ == taken_entries[m].data@ && v@[m].1
                        == spec_info_of(taken_entries[m]),
                self.samples@ == self.samples@.take(i as int) + pre.skip(j),
                spec_taken(pre, pred, capg) == taken_entries + spec_taken(
                    pre.skip(j),
                    pred,
                    capg - v@.len(),
                ),
                spec_after_take(pre, pred, capg) == self.samples@.take(i as int)
                    + spec_after_take(pre.skip(j), pred, capg - v@.len()),
                pred == (|e: SampleEntry| spec_sample_matches(
                    e,
                    sample_states@,
                    view_states@,
                    instance_states@,
                    specific_instance_handle,
                )),
            decreases self.samples@.len() - i,
        {
            proof {
                assert(j < pre.len());
                assert(self.samples@[i as int] == pre.skip(j)[0]);
                assert(pre.skip(j)[0] == pre[j]);
                assert(pre.skip(j).skip(1) =~= pre.skip(j + 1));
            }
            let is_match = Self::sample_matches(
                &self.samples[i],
                sample_states,
                view_states,
                instance_states,
                &specific_instance_handle,
            );
            let under_cap = v.len() < cap;
            if is_match && under_cap {
                let ghost pre_taken = taken_entries;
                let ghost pre_samples = self.samples@;
                let entry = self.samples.remove(i);
                let info = SampleInfo {
                    valid_data: entry.valid_data,
                    sample_state: entry.sample_state,
                    view_state: entry.view_state,
                    instance_state: entry.instance_state,
                    instance_handle: entry.instance_handle,
                    sequence_number: entry.sequence_number,
                };
                v.push((entry.data, info));
                proof {
                    taken_entries = pre_taken.push(pre[j]);
                    assert(taken_entries =~= pre_taken + seq![pre[j]]);
                    assert(pre_taken + (seq![pre[j]] + spec_taken(
                        pre.skip(j + 1),
                        pred,
                        capg - v@.len(),
                    )) =~= taken_entries + spec_taken(
                        pre.skip(j + 1),
                        pred,
                        capg - v@.len(),
                    ));
                    assert(self.samples@ =~= pre_samples.remove(i as int));
                    assert(self.samples@.take(i as int) =~= pre_samples.take(i as int));
                    assert(self.samples@ =~= self.samples@.take(i as int) + pre.skip(j + 1));
                }
            } else {
                proof {
                    if is_match {
                        assert(v@.len() == capg);
                        assert(spec_taken(pre.skip(j), pred, capg - v@.len())
                            =~= Seq::<SampleEntry>::empty());
                        assert(spec_taken(pre.skip(j + 1), pred, capg - v@.len())
                            =~= Seq::<SampleEntry>::empty());
                        assert(spec_after_take(pre.skip(j), pred, 0int) == pre.skip(j));
                    }
                    assert(self.samples@.take(i + 1) =~= self.samples@.take(i as int) + seq![
                        pre[j],
                    ]);
                    assert(self.samples@ =~= self.samples@.take(i + 1) + pre.skip(j + 1));
                    if !is_match {
                        assert((self.samples@.take(i as int) + seq![pre[j]]) + spec_after_take(
                            pre.skip(j + 1),
                            pred,
                            capg - v@.len(),
                        ) =~= self.samples@.take(i as int) + (seq![pre[j]] + spec_after_take(
                            pre.skip(j + 1),
                            pred,
                            capg - v@.len(),
                        )));
                    } else {
                        assert(self.samples@.take(i + 1) + spec_after_take(
                            pre.skip(j + 1),
                            pred,
                            0int,
                        ) =~= self.samples@.take(i as int) + pre.skip(j));
                    }
                }
                i = i + 1;
            }
            proof {
                j = j + 1;
            }
        }
        proof {
            assert(pre.skip(j).len() == 0 ==> j == pre.len());
            assert(pre.skip(pre.len() as int) =~= Seq::<SampleEntry>::empty());
            assert(spec_taken(Seq::empty(), pred, capg - v@.len())
                =~= Seq::<SampleEntry>::empty());
            assert(taken_entries + Seq::<SampleEntry>::empty() =~= taken_entries);
            assert(self.samples@.take(i as int) =~= self.samples@);
            assert(self.samples@ + spec_after_take(Seq::empty(), pred, capg - v@.len())
                =~= self.samples@);
        }
        if v.len() == 0 {
            proof {
                if capg > 0 {
                    lemma_taken_empty_keeps_all(pre, pred, capg);
                } else {
                    assert(pre.len() == 0);
                    assert(spec_after_take(pre, pred, capg) == pre);
                }
            }
            return Err(DdsError::NoData);
        }
        Ok(v)
    }
}

/// When nothing is taken, the store stays exactly as it was.
proof fn lemma_taken_empty_keeps_all(
    s: Seq<SampleEntry>,
    pred: spec_fn(SampleEntry) -> bool,
    n: int,
)
    requires
        spec_taken(s, pred, n).len() == 0,
        n > 0,
    ensures
        spec_after_take(s, pred, n) == s,
    decreases s.len(),
{
    if s.len() > 0 {
        if pred(s[0]) {
            assert(spec_taken(s, pred, n).len() > 0);
        } else {
            lemma_taken_empty_keeps_all(s.skip(1), pred, n);
            assert(seq![s[0]] + s.skip(1) =~= s);
        }
    }
}


impl DdsDataReader {
    /// Read up to `max_samples` matching samples, leaving them stored.
    ///
    /// The first matching samples come back with their bookkeeping and are
    /// marked as read; with nothing matching the read fails with `NoData`
    /// and the store stays as it is.
    pub fn read(
        &mut self,
        max_samples: i32,
        sample_states: &[SampleStateKind],
        view_states: &[ViewStateKind],
        instance_states: &[InstanceStateKind],
        specific_instance_handle: Option<InstanceHandle>,
    ) -> (r: Result<Vec<(Vec<u8>, SampleInfo)>, DdsError>)
        requires
            old(self).wf(),
        ensures
            final(self).wf(),
            *final(self) == (DdsDataReader { samples: final(self).samples, ..*old(self) }),
            max_samples == 0 ==> (r matches Result::Err(e) && e == DdsError::BadParameter)
                && final(self).samples@ == old(self).samples@,
            max_samples != 0 ==> match r {
                Ok(v) => {
                    let pred = |e: SampleEntry| spec_sample_matches(
                        e,
                        sample_states@,
                        view_states@,
                        instance_states@,
                        specific_instance_handle,
                    );
                    let tk = spec_taken(old(self).samples@, pred, spec_effective_cap(max_samples, old(self).samples@.len()));
                    &&& tk.len() > 0
                    &&& v@.len() == tk.len()
                    &&& forall|i: int| 0 <= i < v@.len()
                        ==> (#[trigger] v@[i]).0@ == tk[i].data@ && v@[i].1 == spec_info_of(
                            tk[i],
                        )
                    &&& final(self).samples@ == spec_after_read(
                        old(self).samples@,
                        pred,
                        spec_effective_cap(max_samples, old(self).samples@.len()),
                    )
                },
                Err(e) => {
                    let pred = |e: SampleEntry| spec_sample_matches(
                        e,
                        sample_states@,
                        view_states@,
                        instance_states@,
                        specific_instance_handle,
                    );
                    &&& e == DdsError::NoData
                    &&& spec_taken(old(self).samples@, pred, spec_effective_cap(max_samples, old(self).samples@.len())).len() == 0
                    &&& final(self).samples@ == old(self).samples@
                },
            },
    {
        if max_samples == 0 {
            return Err(DdsError::BadParameter);
        }
        let cap: usize = if max_samples > 0 {
            max_samples as usize
        } else {
            self.samples.len()
        };
        let ghost capg: int = cap as int;
        let ghost pred = |e: SampleEntry| spec_sample_matches(
            e,
            sample_states@,
            view_states@,
            instance_states@,
            specific_instance_handle,
        );
        let ghost pre = self.samples@;
        let mut v: Vec<(Vec<u8>, SampleInfo)> = Vec::new();
        let ghost taken_entries: Seq<SampleEntry> = Seq::empty();
        let mut i: usize = 0;
        proof {
            assert(pre.skip(0int) =~= pre);
            assert(self.samples@.take(0int) =~= Seq::<SampleEntry>::empty());
            assert(self.samples@ =~= self.samples@.take(0int) + pre.skip(0int));
            assert(Seq::empty() + spec_taken(pre.skip(0int), pred, capg)
                =~= spec_taken(pre, pred, capg));
        }
        while i < self.samples.len()
            invariant
                old(self).wf(),
                self.guid == old(self).guid,
                self.topic_name == old(self).topic_name,
                self.data_type_name == old(self).data_type_name,
                self.qos == old(self).qos,
                self.enabled == old(self).enabled,
                self.matched_writers == old(self).matched_writers,
                self.instances == old(self).instances,
                self.subscription_matched == old(self).subscription_matched,
                self.requested_incompatible_qos == old(self).requested_incompatible_qos,
                self.sample_lost_total_count == old(self).sample_lost_total_count,
                capg == cap as int,
                capg == spec_effective_cap(max_samples, pre.len()),
                pre == old(self).samples@,
                0 <= i <= pre.len(),
                self.samples@.len() == pre.len(),
                v@.len() == taken_entries.len(),
                v@.len() <= capg,
                forall|m: int| 0 <= m < v@.len()
                    ==> (#[trigger] v@[m]).0@ == taken_entries[m].data@ && v@[m].1
                        == spec_info_of(taken_entries[m]),
                self.samples@ == self.samples@.take(i as int) + pre.skip(i as int),
                spec_taken(pre, pred, capg) == taken_entries + spec_taken(
                    pre.skip(i as int),
                    pred,
                    capg - v@.len(),
                ),
                spec_after_read(pre, pred, capg) == self.samples@.take(i as int)
                    + spec_after_read(pre.skip(i as int), pred, capg - v@.len()),
                pred == (|e: SampleEntry| spec_sample_matches(
                    e,
                    sample_states@,
                    view_states@,
                    instance_states@,
                    specific_instance_handle,
                )),
            decreases pre.len() - i,
        {
            proof {
                assert(self.samples@[i as int] == pre.skip(i as int)[0]);
                assert(pre.skip(i as int)[0] == pre[i as int]);
                assert(pre.skip(i as int).skip(1) =~= pre.skip(i + 1));
            }
            let is_match = Self::sample_matches(
                &self.samples[i],
                sample_states,
                view_states,
                instance_states,
                &specific_instance_handle,
            );
            let under_cap = v.len() < cap;
            if is_match && under_cap {
                let ghost pre_taken = taken_entries;
                let ghost pre_samples = self.samples@;
                let entry = self.samples.remove(i);
                let info = SampleInfo {
                    valid_data: entry.valid_data,
                    sample_state: entry.sample_state,
                    view_state: entry.view_state,
                    instance_state: entry.instance_state,
                    instance_handle: entry.instance_handle,
                    sequence_number: entry.sequence_number,
                };
                let returned_data = clone_bytes(&entry.data);
                let marked = SampleEntry {
                    data: entry.data,
                    valid_data: entry.valid_data,
                    sample_state: SampleStateKind::Read,
                    view_state: entry.view_state,
                    instance_state: entry.instance_state,
                    instance_handle: entry.instance_handle,
                    writer_guid: entry.writer_guid,
                    sequence_number: entry.sequence_number,
                };
                self.samples.insert(i, marked);
                v.push((returned_data, info));
                proof {
                    taken_entries = pre_taken.push(pre[i as int]);
                    assert(taken_entries =~= pre_taken + seq![pre[i as int]]);
                    assert(pre_taken + (seq![pre[i as int]] + spec_taken(
                        pre.skip(i + 1),
                        pred,
                        capg - v@.len(),
                    )) =~= taken_entries + spec_taken(
                        pre.skip(i + 1),
                        pred,
                        capg - v@.len(),
                    ));
                    assert(self.samples@ =~= pre_samples.update(
                        i as int,
                        self.samples@[i as int],
                    ));
                    assert(self.samples@[i as int] == spec_mark_read(pre[i as int]));
                    assert(self.samples@.take(i + 1) =~= self.samples@.take(i as int) + seq![
                        spec_mark_read(pre[i as int]),
                    ]);
                    assert(self.samples@.take(i as int) =~= pre_samples.take(i as int));
                    assert(self.samples@ =~= self.samples@.take(i + 1) + pre.skip(i + 1));
                    assert((self.samples@.take(i as int) + seq![spec_mark_read(pre[i as int])])
                        + spec_after_read(pre.skip(i + 1), pred, capg - v@.len())
                        =~= self.samples@.take(i as int) + (seq![spec_mark_read(pre[i as int])]
                        + spec_after_read(pre.skip(i + 1), pred, capg - v@.len())));
                }
            } else {
                proof {
                    if is_match {
                        assert(v@.len() == capg);
                        assert(spec_taken(pre.skip(i as int), pred, capg - v@.len())
                            =~= Seq::<SampleEntry>::empty());
                        assert(spec_taken(pre.skip(i + 1), pred, capg - v@.len())
                            =~= Seq::<SampleEntry>::empty());
                        assert(spec_after_read(pre.skip(i as int), pred, 0int) == pre.skip(
                            i as int,
                        ));
                        assert(spec_after_read(pre.skip(i + 1), pred, 0int) == pre.skip(i + 1));
                    }
                    assert(self.samples@.take(i + 1) =~= self.samples@.take(i as int) + seq![
                        pre[i as int],
                    ]);
                    assert(self.samples@ =~= self.samples@.take(i + 1) + pre.skip(i + 1));
                    if !is_match {
                        assert((self.samples@.take(i as int) + seq![pre[i as int]])
                            + spec_after_read(pre.skip(i + 1), pred, capg - v@.len())
                            =~= self.samples@.take(i as int) + (seq![pre[i as int]]
                            + spec_after_read(pre.skip(i + 1), pred, capg - v@.len())));
                    } else {
                        assert(self.samples@.take(i + 1) + spec_after_read(
                            pre.skip(i + 1),
                            pred,
                            0int,
                        ) =~= self.samples@.take(i as int) + pre.skip(i as int));
                    }
                }
            }
            i = i + 1;
        }
        proof {
            assert(pre.skip(pre.len() as int) =~= Seq::<SampleEntry>::empty());
            assert(spec_taken(Seq::empty(), pred, capg - v@.len())
                =~= Seq::<SampleEntry>::empty());
            assert(taken_entries + Seq::<SampleEntry>::empty() =~= taken_entries);
            assert(self.samples@.take(i as int) =~= self.samples@);
            assert(self.samples@ + spec_after_read(Seq::empty(), pred, capg - v@.len())
                =~= self.samples@);
        }
        if v.len() == 0 {
            proof {
                if capg > 0 {
                    lemma_read_empty_keeps_all(pre, pred, capg);
                } else {
                    assert(pre.len() == 0);
                    assert(spec_after_read(pre, pred, capg) == pre);
                }
            }
            return Err(DdsError::NoData);
        }
        Ok(v)
    }
}

/// When nothing is read, the store stays exactly as it was.
proof fn lemma_read_empty_keeps_all(
    s: Seq<SampleEntry>,
    pred: spec_fn(SampleEntry) -> bool,
    n: int,
)
    requires
        spec_taken(s, pred, n).len() == 0,
        n > 0,
    ensures
        spec_after_read(s, pred, n) == s,
    decreases s.len(),
{
    if s.len() > 0 {
        if pred(s[0]) {
            assert(spec_taken(s, pred, n).len() > 0);
        } else {
            lemma_read_empty_keeps_all(s.skip(1), pred, n);
            assert(seq![s[0]] + s.skip(1) =~= s);
        }
    }
}


/// How one reader changes when it considers one discovered writer: exactly
/// the effect of `add_matched_writer`.
pub open spec fn spec_add_matched_writer_rel(
    pre: DdsDataReader,
    post: DdsDataReader,
    d: DiscoveredWriterData,
    default_unicast_locator_list: Seq<crate::types::Locator>,
    default_multicast_locator_list: Seq<crate::types::Locator>,
) -> bool {
    &&& post.guid == pre.guid
    &&& post.qos == pre.qos
    &&& post.samples == pre.samples
    &&& post.instances == pre.instances
    &&& post.topic_name == pre.topic_name
    &&& post.data_type_name == pre.data_type_name
    &&& post.enabled == pre.enabled
    &&& post.sample_lost_total_count == pre.sample_lost_total_count
    &&& {
        let same = d.dds_publication_data.topic_name@ == pre.topic_name@
            && d.dds_publication_data.data_type_name@ == pre.data_type_name@;
        if !same {
            post == pre
        } else if spec_qos_compatible(d.dds_publication_data.qos, pre.qos) {
            &&& post.matched_writers@.len() == pre.matched_writers@.len() + 1
            &&& post.matched_writers@.last().proxy.remote_writer_guid == d.remote_writer_guid
            &&& post.matched_writers@.last().proxy.unicast_locator_list@ == (
            if d.unicast_locator_list@.len() > 0 {
                d.unicast_locator_list@
            } else {
                default_unicast_locator_list
            })
            &&& post.matched_writers@.last().proxy.multicast_locator_list@ == (
            if d.multicast_locator_list@.len() > 0 {
                d.multicast_locator_list@
            } else {
                default_multicast_locator_list
            })
            &&& post.matched_writers@.last().ownership_strength
                == d.dds_publication_data.qos.ownership_strength.value
            &&& post.subscription_matched == (SubscriptionMatchedStatus {
                total_count: (pre.subscription_matched.total_count + 1) as i32,
                current_count: (pre.subscription_matched.current_count + 1) as i32,
            })
            &&& post.requested_incompatible_qos == pre.requested_incompatible_qos
        } else {
            &&& post.matched_writers == pre.matched_writers
            &&& post.subscription_matched == pre.subscription_matched
            &&& post.requested_incompatible_qos.total_count
                == pre.requested_incompatible_qos.total_count + 1
            &&& post.requested_incompatible_qos.last_policy_id
                == spec_incompatible_qos_policies(d.dds_publication_data.qos, pre.qos).last()
        }
    }
}

/// How one reader changes when a matched writer leaves: exactly the effect
/// of `remove_matched_writer`.
pub open spec fn spec_remove_matched_writer_rel(
    pre: DdsDataReader,
    post: DdsDataReader,
    writer_guid: GUID,
) -> bool {
    &&& post.guid == pre.guid
    &&& post.qos == pre.qos
    &&& post.samples == pre.samples
    &&& post.instances == pre.instances
    &&& post.subscription_matched.total_count == pre.subscription_matched.total_count
    &&& post.matched_writers@ == pre.matched_writers@.filter(
        |e: MatchedWriterEntry|
            e.proxy.remote_writer_guid.spec_to_bytes() != writer_guid.spec_to_bytes(),
    )
    &&& post.subscription_matched.current_count == post.matched_writers@.len()
}


impl DdsDataReader {
    /// The count of samples lost on the way to this reader.
    pub fn get_sample_lost_status(&self) -> (r: i32)
        ensures
            r == self.sample_lost_total_count,
    {
        self.sample_lost_total_count
    }

    /// The index of the matched writer with this identity, if one exists.
    fn find_matched_writer(&self, writer_guid: &GUID) -> (r: Option<usize>)
        ensures
            match r {
                Option::Some(k) => 0 <= k < self.matched_writers@.len()
                    && self.matched_writers@[
                    k as int
                ].proxy.remote_writer_guid.spec_to_bytes() == writer_guid.spec_to_bytes()
                    && spec_first_matched_writer(
                    self.matched_writers@,
                    writer_guid.spec_to_bytes(),
                ) == Option::Some(k as int),
                Option::None => spec_first_matched_writer(
                    self.matched_writers@,
                    writer_guid.spec_to_bytes(),
                ) is None,
            },
    {
        let mut i: usize = 0;
        while i < self.matched_writers.len()
            invariant
                0 <= i <= self.matched_writers@.len(),
                forall|k: int| 0 <= k < i ==> (#[trigger] self.matched_writers@[
                    k
                ]).proxy.remote_writer_guid.spec_to_bytes() != writer_guid.spec_to_bytes(),
            decreases self.matched_writers@.len() - i,
        {
            if crate::history_cache::guid_eq(
                &self.matched_writers[i].proxy.remote_writer_guid,
                writer_guid,
            ) {
                proof {
                    lemma_first_matched_writer_at(
                        self.matched_writers@,
                        writer_guid.spec_to_bytes(),
                        i as int,
                    );
                }
                return Option::Some(i);
            }
            i = i + 1;
        }
        proof {
            lemma_first_matched_writer_none(self.matched_writers@, writer_guid.spec_to_bytes());
        }
        Option::None
    }

    /// Accept one sample from a matched writer under the best-effort rule.
    ///
    /// Only a sequence number strictly above everything yet seen from the
    /// writer is accepted; the jump it makes over the previous high mark
    /// counts the samples detected as lost. A sample of an unmatched writer
    /// changes nothing.
    pub fn process_data_best_effort(
        &mut self,
        writer_guid: &GUID,
        writer_strength: i32,
        kind: ChangeKind,
        sequence_number: SequenceNumber,
        instance_handle: InstanceHandle,
        data: Vec<u8>,
    ) -> (accepted: bool)
        requires
            old(self).wf(),
            0 < sequence_number.spec_value() < 0x7fff_ffff_ffff_ffff,
        ensures
            final(self).wf(),
            final(self).guid == old(self).guid,
            final(self).qos == old(self).qos,
            accepted == (match spec_first_matched_writer(
                old(self).matched_writers@,
                writer_guid.spec_to_bytes(),
            ) {
                Option::Some(k) => sequence_number.spec_value() > old(self).matched_writers@[
                    k
                ].last_announced && (old(self).qos.ownership.kind
                    == OwnershipQosPolicyKind::Shared || spec_ownership_permits(
                    old(self).instances@,
                    instance_handle.0@,
                    *writer_guid,
                    writer_strength as int,
                )),
                Option::None => false,
            }),
            accepted ==> (match spec_first_matched_writer(
                old(self).matched_writers@,
                writer_guid.spec_to_bytes(),
            ) {
                Option::Some(k) => {
                    &&& final(self).matched_writers@ == old(self).matched_writers@.update(
                        k,
                        MatchedWriterEntry {
                            last_announced: sequence_number.spec_value() as i64,
                            ..old(self).matched_writers@[k]
                        },
                    )
                    &&& final(self).sample_lost_total_count == spec_count_lost(
                        old(self).sample_lost_total_count as int,
                        sequence_number.spec_value() - old(self).matched_writers@[
                            k
                        ].last_announced - 1,
                    )
                },
                Option::None => false,
            }),
            accepted ==> final(self).samples@.len() == old(self).samples@.len() + 1
                && final(self).samples@.last().sequence_number == sequence_number
                && final(self).samples@.last().data@ == data@,
            !accepted ==> *final(self) == *old(self),
    {
        let k = match self.find_matched_writer(writer_guid) {
            Option::Some(k) => k,
            Option::None => {
                return false;
            },
        };
        let last = self.matched_writers[k].last_announced;
        let sn = sequence_number.as_i64();
        if sn <= last {
            return false;
        }
        let allowed = match self.qos.ownership.kind {
            crate::qos::OwnershipQosPolicyKind::Shared => true,
            crate::qos::OwnershipQosPolicyKind::Exclusive => self.ownership_allows(
                &instance_handle,
                writer_guid,
                writer_strength,
            ),
        };
        if !allowed {
            return false;
        }
        let lost = sn - last - 1;
        let lost_now: i32 = if lost > 0x7fff_ffff {
            0x7fff_ffff
        } else {
            lost as i32
        };
        if self.sample_lost_total_count <= 0x7fff_ffff - lost_now {
            self.sample_lost_total_count = self.sample_lost_total_count + lost_now;
        }
        let ghost pre_writers = self.matched_writers@;
        let entry = &mut mut_matched_writer_at(&mut self.matched_writers, k);
        entry.last_announced = sn;
        proof {
            assert(self.matched_writers@[k as int].last_announced == sn);
            assert forall|m: int| 0 <= m < self.matched_writers@.len() && m != k as int
                implies #[trigger] self.matched_writers@[m] == pre_writers[m] by {}
            assert forall|m: int| 0 <= m < self.matched_writers@.len()
                implies 0 <= (#[trigger] self.matched_writers@[m]).last_announced
                    < 0x7fff_ffff_ffff_ffff by {
                if m != k as int {
                    assert(self.matched_writers@[m] == pre_writers[m]);
                }
            }
            assert(self.wf());
        }
        let accepted = self.process_received_change(
            writer_guid,
            writer_strength,
            kind,
            sequence_number,
            instance_handle,
            data,
        );
        proof {
            assert(accepted);
            assert(self.matched_writers@ =~= old(self).matched_writers@.update(
                k as int,
                MatchedWriterEntry {
                    last_announced: sequence_number.spec_value() as i64,
                    ..old(self).matched_writers@[k as int]
                },
            ));
        }
        accepted
    }
}

/// The index of the first matched-writer entry with these identity bytes.
pub open spec fn spec_first_matched_writer(
    s: Seq<MatchedWriterEntry>,
    guid_bytes: Seq<u8>,
) -> Option<int>
    decreases s.len(),
{
    if s.len() == 0 {
        Option::None
    } else if s[0].proxy.remote_writer_guid.spec_to_bytes() == guid_bytes {
        Option::Some(0int)
    } else {
        match spec_first_matched_writer(s.skip(1), guid_bytes) {
            Option::Some(k) => Option::Some(k + 1),
            Option::None => Option::None,
        }
    }
}

/// The first-match lookup agrees with any index whose predecessors all miss.
proof fn lemma_first_matched_writer_at(s: Seq<MatchedWriterEntry>, guid_bytes: Seq<u8>, k: int)
    requires
        0 <= k < s.len(),
        s[k].proxy.remote_writer_guid.spec_to_bytes() == guid_bytes,
        forall|m: int| 0 <= m < k ==> (#[trigger] s[m]).proxy.remote_writer_guid.spec_to_bytes()
            != guid_bytes,
    ensures
        spec_first_matched_writer(s, guid_bytes) == Option::Some(k),
    decreases s.len(),
{
    if k > 0 {
        lemma_first_matched_writer_at(s.skip(1), guid_bytes, k - 1);
    }
}

/// With no matching entry the lookup misses.
proof fn lemma_first_matched_writer_none(s: Seq<MatchedWriterEntry>, guid_bytes: Seq<u8>)
    requires
        forall|m: int| 0 <= m < s.len()
            ==> (#[trigger] s[m]).proxy.remote_writer_guid.spec_to_bytes() != guid_bytes,
    ensures
        spec_first_matched_writer(s, guid_bytes) is None,
    decreases s.len(),
{
    if s.len() > 0 {
        lemma_first_matched_writer_none(s.skip(1), guid_bytes);
    }
}

/// The lost counter after a jump over `lost` samples: the jump is clamped to
/// the counter's range and the counter saturates at its maximum.
pub open spec fn spec_count_lost(count: int, lost: int) -> int {
    let l: int = if lost > 0x7fff_ffff {
        0x7fff_ffff
    } else {
        lost
    };
    if count + l <= 0x7fff_ffff {
        count + l
    } else {
        count
    }
}

/// A mutable borrow of the matched-writer entry at one index.
fn mut_matched_writer_at(entries: &mut Vec<MatchedWriterEntry>, i: usize) -> (r:
    &mut MatchedWriterEntry)
    requires
        i < old(entries)@.len(),
    ensures
        *r == old(entries)@[i as int],
        final(entries)@ == old(entries)@.update(i as int, *final(r)),
{
    &mut entries[i]
}


/// Two samples of one writer accepted under the best-effort rule arrive in
/// sequence-number order.
///
/// Accepting a sample moves the writer's high mark to its sequence number,
/// the mark never moves down, and a later acceptance demands a number above
/// the mark; so the delivery order of any two accepted samples agrees with
/// their sequence-number order.
pub proof fn lemma_best_effort_delivery_ordered(
    first_accepted: int,
    mark_after_first: int,
    mark_before_second: int,
    second_accepted: int,
)
    requires
        mark_after_first == first_accepted,
        mark_before_second >= mark_after_first,
        second_accepted > mark_before_second,
    ensures
        second_accepted > first_accepted,
{
}


} // verus!

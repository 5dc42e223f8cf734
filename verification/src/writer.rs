//! Writer-side endpoint behaviours: the per-reader proxy of a stateful
//! writer, acknack processing, heartbeat production and the rule that a
//! reliable writer never drops a change a matched reader still misses.

use vstd::prelude::*;

use crate::history_cache::{CacheChange, HistoryCache};
use crate::messages::{AckNackSubmessage, EntityIdSubmessageElement, HeartbeatSubmessage,
    SequenceNumberSubmessageElement};
use crate::sequence_number_set::SequenceNumberSet;
use crate::types::{ChangeKind, Count, Data, EntityId, InstanceHandle, Locator, Parameter,
    ParameterList, ReliabilityKind, SequenceNumber, TopicKind, GUID};

verus! {

/// The per-reader state a stateful writer keeps: what the reader has
/// acknowledged, what it asked to have again, and what was pushed to it.
pub struct ReaderProxy {
    pub remote_reader_guid: GUID,
    pub remote_group_entity_id: EntityId,
    pub unicast_locator_list: Vec<Locator>,
    pub multicast_locator_list: Vec<Locator>,
    pub expects_inline_qos: bool,
    pub is_active: bool,
    pub reliability: ReliabilityKind,
    pub highest_acked: i64,
    pub highest_sent: i64,
    pub requested_changes: Vec<i64>,
    pub last_received_acknack_count: i32,
}

/// The four states of the reliable writer's behaviour towards one reader.
#[derive(Clone, Copy, Debug, PartialEq, Eq, Structural)]
pub enum WriterProxyState {
    /// Nothing written yet, or everything acknowledged.
    Initial,
    /// Unsent changes wait to be pushed.
    Ready,
    /// Everything sent; the writer waits for acknowledgements.
    Waiting,
    /// The reader asked for retransmissions.
    MustRepair,
}

impl ReaderProxy {
    /// A fresh proxy for one remote reader.
    pub fn new(
        remote_reader_guid: GUID,
        remote_group_entity_id: EntityId,
        unicast_locator_list: Vec<Locator>,
        multicast_locator_list: Vec<Locator>,
        expects_inline_qos: bool,
        is_active: bool,
        reliability: ReliabilityKind,
    ) -> (r: ReaderProxy)
        ensures
            r.remote_reader_guid == remote_reader_guid,
            r.remote_group_entity_id == remote_group_entity_id,
            r.unicast_locator_list == unicast_locator_list,
            r.multicast_locator_list == multicast_locator_list,
            r.expects_inline_qos == expects_inline_qos,
            r.is_active == is_active,
            r.reliability == reliability,
            r.highest_acked == 0,
            r.highest_sent == 0,
            r.requested_changes@ == Seq::<i64>::empty(),
            r.last_received_acknack_count == 0,
    {
        let r = ReaderProxy {
            remote_reader_guid,
            remote_group_entity_id,
            unicast_locator_list,
            multicast_locator_list,
            expects_inline_qos,
            is_active,
            reliability,
            highest_acked: 0,
            highest_sent: 0,
            requested_changes: Vec::new(),
            last_received_acknack_count: 0,
        };
        proof {
            assert(r.requested_changes@ =~= Seq::<i64>::empty());
        }
        r
    }

    /// The remote reader this proxy stands for.
    pub fn remote_reader_guid(&self) -> (r: &GUID)
        ensures
            r == self.remote_reader_guid,
    {
        &self.remote_reader_guid
    }

    /// The state of the reliable behaviour towards this reader, given the
    /// highest sequence number the writer has produced.
    ///
    /// Requested changes call for repair first; unsent changes make the
    /// writer ready to push; unacknowledged but sent changes leave it
    /// waiting; otherwise everything is acknowledged.
    pub fn state(&self, last_change_sequence_number: i64) -> (r: WriterProxyState)
        ensures
            r == WriterProxyState::MustRepair <==> self.requested_changes@.len() > 0,
            self.requested_changes@.len() == 0 ==> {
                &&& (r == WriterProxyState::Ready
                    <==> self.highest_sent < last_change_sequence_number)
                &&& self.highest_sent >= last_change_sequence_number ==> {
                    &&& (r == WriterProxyState::Waiting
                        <==> self.highest_acked < last_change_sequence_number)
                    &&& (r == WriterProxyState::Initial
                        <==> self.highest_acked >= last_change_sequence_number)
                }
            },
    {
        if self.requested_changes.len() > 0 {
            WriterProxyState::MustRepair
        } else if self.highest_sent < last_change_sequence_number {
            WriterProxyState::Ready
        } else if self.highest_acked < last_change_sequence_number {
            WriterProxyState::Waiting
        } else {
            WriterProxyState::Initial
        }
    }

    /// The sequence numbers in `next..=last` not yet pushed to this reader.
    pub fn unsent_changes(&self, last_change_sequence_number: i64) -> (r: Vec<i64>)
        requires
            self.highest_sent >= 0,
        ensures
            r@.len() == (if last_change_sequence_number > self.highest_sent {
                last_change_sequence_number - self.highest_sent
            } else {
                0int
            }),
            forall|i: int| 0 <= i < r@.len() ==> #[trigger] r@[i] == self.highest_sent + 1 + i,
    {
        let mut r: Vec<i64> = Vec::new();
        let mut s: i64 = self.highest_sent;
        while s < last_change_sequence_number
            invariant
                self.highest_sent <= s,
                s <= last_change_sequence_number || s == self.highest_sent,
                r@.len() == s - self.highest_sent,
                forall|i: int| 0 <= i < r@.len()
                    ==> #[trigger] r@[i] == self.highest_sent + 1 + i,
            decreases last_change_sequence_number - s,
        {
            r.push(s + 1);
            s = s + 1;
        }
        r
    }

    /// Note that everything up to this sequence number was pushed.
    pub fn sent_changes_update(&mut self, last_sent: i64)
        ensures
            *final(self) == (ReaderProxy {
                highest_sent: if last_sent > old(self).highest_sent {
                    last_sent
                } else {
                    old(self).highest_sent
                },
                ..*old(self)
            }),
    {
        if last_sent > self.highest_sent {
            self.highest_sent = last_sent;
        }
    }

    /// Process one acknack of this reader: note what it acknowledged and
    /// what it requests again.
    ///
    /// An acknack with a count at or below the last one seen is stale and
    /// ignored. A fresh one moves the acknowledged mark to just below the
    /// acknack base and replaces the requested set with the set members.
    pub fn process_acknack(&mut self, acknack: &AckNackSubmessage)
        requires
            acknack.reader_sn_state.wf(),
            acknack.reader_sn_state.base.spec_value() > -0x8000_0000_0000_0000,
        ensures
            spec_acknack_step(*old(self), *final(self), *acknack),
            final(self).remote_reader_guid == old(self).remote_reader_guid,
            final(self).remote_group_entity_id == old(self).remote_group_entity_id,
            final(self).reliability == old(self).reliability,
            final(self).highest_sent == old(self).highest_sent,
            acknack.count.0 <= old(self).last_received_acknack_count ==> *final(self)
                == *old(self),
            acknack.count.0 > old(self).last_received_acknack_count ==> {
                &&& final(self).last_received_acknack_count == acknack.count.0
                &&& final(self).highest_acked == (if acknack.reader_sn_state.base.spec_value() - 1
                    > old(self).highest_acked {
                    acknack.reader_sn_state.base.spec_value() - 1
                } else {
                    old(self).highest_acked as int
                })
                &&& forall|s: int| spec_requested(*final(self), s)
                    <==> acknack.reader_sn_state.spec_contains(s)
            },
    {
        if acknack.count.0 <= self.last_received_acknack_count {
            return ;
        }
        self.last_received_acknack_count = acknack.count.0;
        let base = acknack.reader_sn_state.base().as_i64();
        if base - 1 > self.highest_acked {
            self.highest_acked = base - 1;
        }
        let mut requested: Vec<i64> = Vec::new();
        let mut it = acknack.reader_sn_state.iter();
        loop
            invariant
                it.set == acknack.reader_sn_state,
                it.set.wf(),
                it.index <= 256,
                forall|s: int| spec_seq_holds(requested@, s)
                    <==> (acknack.reader_sn_state.spec_contains(s)
                        && s - acknack.reader_sn_state.base.spec_value() < it.index),
            ensures
                forall|s: int| spec_seq_holds(requested@, s)
                    <==> acknack.reader_sn_state.spec_contains(s),
            decreases 256 - it.index,
        {
            let ghost pre_index = it.index;
            let ghost pre = requested@;
            match it.next() {
                Option::Some(sn) => {
                    requested.push(sn.as_i64());
                    proof {
                        let basev = acknack.reader_sn_state.base.spec_value();
                        assert forall|s: int| spec_seq_holds(requested@, s)
                            implies (acknack.reader_sn_state.spec_contains(s)
                                && s - basev < it.index) by {
                            let i = choose|i: int| 0 <= i < requested@.len()
                                && #[trigger] requested@[i] == s;
                            if i < pre.len() {
                                assert(spec_seq_holds(pre, s));
                            } else {
                                assert(s == sn.spec_value());
                            }
                        }
                        assert forall|s: int| (acknack.reader_sn_state.spec_contains(s)
                            && s - basev < it.index)
                            implies spec_seq_holds(requested@, s) by {
                            let off = s - basev;
                            assert(acknack.reader_sn_state.spec_contains_offset(off));
                            if off == it.index - 1 {
                                assert(requested@[requested@.len() - 1] == s);
                            } else if pre_index <= off {
                                assert(!it.set.spec_contains_offset(off));
                                assert(false);
                            } else {
                                assert(spec_seq_holds(pre, s));
                                let i = choose|i: int| 0 <= i < pre.len()
                                    && #[trigger] pre[i] == s;
                                assert(requested@[i] == s);
                            }
                        }
                    }
                },
                Option::None => {
                    proof {
                        let basev = acknack.reader_sn_state.base.spec_value();
                        assert forall|s: int| acknack.reader_sn_state.spec_contains(s)
                            implies s - basev < it.index by {
                            let off = s - basev;
                            assert(acknack.reader_sn_state.spec_contains_offset(off));
                            if off >= pre_index {
                                assert(false);
                            }
                        }
                    }
                    break ;
                },
            }
        }
        self.requested_changes = requested;
    }

    /// Take the requested sequence numbers, leaving none requested.
    pub fn requested_changes_take(&mut self) -> (r: Vec<i64>)
        ensures
            r@ == old(self).requested_changes@,
            *final(self) == (ReaderProxy { requested_changes: final(self).requested_changes, ..*old(
                self,
            ) }),
            final(self).requested_changes@ == Seq::<i64>::empty(),
    {
        let mut taken: Vec<i64> = Vec::new();
        core::mem::swap(&mut taken, &mut self.requested_changes);
        proof {
            assert(self.requested_changes@ =~= Seq::<i64>::empty());
        }
        taken
    }
}

/// How one reader proxy changes when it processes one acknack: exactly the
/// effect of `process_acknack`.
pub open spec fn spec_acknack_step(
    pre: ReaderProxy,
    post: ReaderProxy,
    acknack: AckNackSubmessage,
) -> bool {
    &&& post.remote_reader_guid == pre.remote_reader_guid
    &&& post.remote_group_entity_id == pre.remote_group_entity_id
    &&& post.reliability == pre.reliability
    &&& post.highest_sent == pre.highest_sent
    &&& (acknack.count.0 <= pre.last_received_acknack_count ==> post == pre)
    &&& (acknack.count.0 > pre.last_received_acknack_count ==> {
        &&& post.last_received_acknack_count == acknack.count.0
        &&& post.highest_acked == (if acknack.reader_sn_state.base.spec_value() - 1
            > pre.highest_acked {
            acknack.reader_sn_state.base.spec_value() - 1
        } else {
            pre.highest_acked as int
        })
        &&& forall|s: int| spec_requested(post, s)
            <==> acknack.reader_sn_state.spec_contains(s)
    })
}

/// True when the sequence holds this value.
pub open spec fn spec_seq_holds(s: Seq<i64>, t: int) -> bool {
    exists|i: int| 0 <= i < s.len() && #[trigger] s[i] == t
}

/// True when the proxy has this sequence number in its requested set.
pub open spec fn spec_requested(p: ReaderProxy, s: int) -> bool {
    spec_seq_holds(p.requested_changes@, s)
}

/// A stateful writer: its identity, its history cache, the counter of the
/// sequence numbers it hands out, and one proxy per matched reader.
pub struct StatefulWriter {
    pub guid: GUID,
    pub topic_kind: TopicKind,
    pub reliability: ReliabilityKind,
    pub push_mode: bool,
    pub heartbeat_period: crate::qos::DurationKind,
    pub nack_response_delay: crate::qos::DurationKind,
    pub nack_suppression_duration: crate::qos::DurationKind,
    pub data_max_size_serialized: usize,
    pub heartbeat_count: i32,
    pub last_change_sequence_number: i64,
    pub writer_cache: HistoryCache,
    pub matched_readers: Vec<ReaderProxy>,
}

impl StatefulWriter {
    /// The cache and counter are sound and every proxy mark is nonnegative.
    pub open spec fn wf(self) -> bool {
        &&& self.writer_cache.wf()
        &&& self.last_change_sequence_number >= 0
        &&& forall|i: int| 0 <= i < self.matched_readers@.len()
            ==> #[trigger] self.matched_readers@[i].highest_sent >= 0
    }

    /// A fresh writer with an empty cache, no matched readers and the given
    /// timing configuration.
    pub fn new(
        guid: GUID,
        topic_kind: TopicKind,
        reliability: ReliabilityKind,
        push_mode: bool,
        heartbeat_period: crate::qos::DurationKind,
        nack_response_delay: crate::qos::DurationKind,
        nack_suppression_duration: crate::qos::DurationKind,
        data_max_size_serialized: usize,
        writer_cache: HistoryCache,
    ) -> (r: StatefulWriter)
        requires
            writer_cache.wf(),
            writer_cache.changes@.len() == 0,
        ensures
            r.guid == guid,
            r.topic_kind == topic_kind,
            r.reliability == reliability,
            r.push_mode == push_mode,
            r.heartbeat_period == heartbeat_period,
            r.nack_response_delay == nack_response_delay,
            r.nack_suppression_duration == nack_suppression_duration,
            r.data_max_size_serialized == data_max_size_serialized,
            r.heartbeat_count == 0,
            r.last_change_sequence_number == 0,
            r.writer_cache == writer_cache,
            r.matched_readers@ == Seq::<ReaderProxy>::empty(),
            r.wf(),
    {
        let r = StatefulWriter {
            guid,
            topic_kind,
            reliability,
            push_mode,
            heartbeat_period,
            nack_response_delay,
            nack_suppression_duration,
            data_max_size_serialized,
            heartbeat_count: 0,
            last_change_sequence_number: 0,
            writer_cache,
            matched_readers: Vec::new(),
        };
        proof {
            assert(r.matched_readers@ =~= Seq::<ReaderProxy>::empty());
        }
        r
    }

    /// The writer's identity.
    pub fn guid(&self) -> (r: &GUID)
        ensures
            r == self.guid,
    {
        &self.guid
    }

    /// Produce the next change of this writer: the sequence-number counter
    /// moves up by one and stamps the change.
    pub fn new_change(
        &mut self,
        kind: ChangeKind,
        data_value: Vec<u8>,
        inline_qos: Vec<Parameter>,
        handle: InstanceHandle,
    ) -> (r: CacheChange)
        requires
            old(self).wf(),
            old(self).last_change_sequence_number < 0x7fff_ffff_ffff_ffff,
        ensures
            final(self).wf(),
            *final(self) == (StatefulWriter {
                last_change_sequence_number: (old(self).last_change_sequence_number + 1) as i64,
                ..*old(self)
            }),
            r.kind == kind,
            r.writer_guid == old(self).guid,
            r.instance_handle == handle,
            r.sequence_number.spec_value() == old(self).last_change_sequence_number + 1,
            r.data_value.0@ == data_value@,
            r.inline_qos.parameter@ == inline_qos@,
    {
        self.last_change_sequence_number = self.last_change_sequence_number + 1;
        CacheChange {
            kind,
            writer_guid: self.guid,
            instance_handle: handle,
            sequence_number: SequenceNumber::from_i64(self.last_change_sequence_number),
            data_value: Data(data_value),
            inline_qos: ParameterList { parameter: inline_qos },
        }
    }

    /// Match one more reader.
    pub fn matched_reader_add(&mut self, a_reader_proxy: ReaderProxy)
        requires
            old(self).wf(),
            a_reader_proxy.highest_sent >= 0,
        ensures
            final(self).wf(),
            *final(self) == (StatefulWriter {
                matched_readers: final(self).matched_readers,
                ..*old(self)
            }),
            final(self).matched_readers@ == old(self).matched_readers@.push(a_reader_proxy),
    {
        self.matched_readers.push(a_reader_proxy);
    }

    /// Unmatch every reader with this identity.
    pub fn matched_reader_remove(&mut self, a_reader_guid: &GUID)
        requires
            old(self).wf(),
        ensures
            final(self).wf(),
            *final(self) == (StatefulWriter {
                matched_readers: final(self).matched_readers,
                ..*old(self)
            }),
            final(self).matched_readers@ == old(self).matched_readers@.filter(
                |p: ReaderProxy|
                    p.remote_reader_guid.spec_to_bytes() != a_reader_guid.spec_to_bytes(),
            ),
    {
        let ghost pred = |p: ReaderProxy|
            p.remote_reader_guid.spec_to_bytes() != a_reader_guid.spec_to_bytes();
        let ghost pre = self.matched_readers@;
        let mut i: usize = 0;
        let ghost j: int = 0;
        proof {
            reveal(Seq::filter);
            assert(pre.take(0int).filter(pred) =~= Seq::<ReaderProxy>::empty());
            assert(self.matched_readers@ =~= pre.take(0int).filter(pred) + pre.skip(0int));
        }
        while i < self.matched_readers.len()
            invariant
                self.guid == old(self).guid,
                self.topic_kind == old(self).topic_kind,
                self.reliability == old(self).reliability,
                self.push_mode == old(self).push_mode,
                self.heartbeat_period == old(self).heartbeat_period,
                self.nack_response_delay == old(self).nack_response_delay,
                self.nack_suppression_duration == old(self).nack_suppression_duration,
                self.data_max_size_serialized == old(self).data_max_size_serialized,
                self.heartbeat_count == old(self).heartbeat_count,
                self.last_change_sequence_number == old(self).last_change_sequence_number,
                self.writer_cache == old(self).writer_cache,
                old(self).wf(),
                0 <= j <= pre.len(),
                i == pre.take(j).filter(pred).len(),
                i <= j,
                self.matched_readers@ == pre.take(j).filter(pred) + pre.skip(j),
                pred == (|p: ReaderProxy|
                    p.remote_reader_guid.spec_to_bytes() != a_reader_guid.spec_to_bytes()),
            decreases self.matched_readers@.len() - i,
        {
            proof {
                reveal(Seq::filter);
                pre.take(j).lemma_filter_len(pred);
                assert(j < pre.len());
                assert(self.matched_readers@[i as int] == pre.skip(j)[0]);
                assert(pre.skip(j)[0] == pre[j]);
                assert(pre.take(j + 1).drop_last() =~= pre.take(j));
                assert(pre.take(j + 1).last() == pre[j]);
            }
            let same = crate::history_cache::guid_eq(
                &self.matched_readers[i].remote_reader_guid,
                a_reader_guid,
            );
            if same {
                self.matched_readers.remove(i);
                proof {
                    assert(!pred(pre[j]));
                    assert(pre.take(j + 1).filter(pred) =~= pre.take(j).filter(pred));
                    assert(self.matched_readers@ =~= pre.take(j + 1).filter(pred) + pre.skip(
                        j + 1,
                    ));
                }
            } else {
                proof {
                    assert(pred(pre[j]));
                    assert(pre.take(j + 1).filter(pred) =~= pre.take(j).filter(pred).push(
                        pre[j],
                    ));
                    assert(self.matched_readers@ =~= pre.take(j + 1).filter(pred) + pre.skip(
                        j + 1,
                    ));
                }
                i = i + 1;
            }
            proof {
                j = j + 1;
            }
        }
        proof {
            assert(pre.take(pre.len() as int) =~= pre);
            assert(self.matched_readers@ =~= pre.filter(pred));
            assert forall|k: int| 0 <= k < self.matched_readers@.len()
                implies #[trigger] self.matched_readers@[k].highest_sent >= 0 by {
                crate::history_cache::lemma_filter_member_of(pre, pred, k);
                let m = choose|m: int| 0 <= m < pre.len() && pre[m]
                    == #[trigger] pre.filter(pred)[k];
                assert(pre[m].highest_sent >= 0);
            }
        }
    }

    /// Produce one heartbeat: the available range of the cache and a fresh
    /// count.
    ///
    /// An empty cache announces the range just past the last handed-out
    /// sequence number, so that the first number is one above the last.
    pub fn produce_heartbeat(&mut self, reader_id: EntityId) -> (r: HeartbeatSubmessage)
        requires
            old(self).wf(),
            old(self).heartbeat_count < 0x7fff_ffff,
            old(self).last_change_sequence_number < 0x7fff_ffff_ffff_ffff,
        ensures
            final(self).wf(),
            *final(self) == (StatefulWriter {
                heartbeat_count: (old(self).heartbeat_count + 1) as i32,
                ..*old(self)
            }),
            r.writer_id.value == old(self).guid.entity_id,
            r.reader_id.value == reader_id,
            r.count.0 == old(self).heartbeat_count + 1,
            old(self).writer_cache.changes@.len() == 0 ==> r.first_sn.value.spec_value()
                == old(self).last_change_sequence_number + 1 && r.last_sn.value.spec_value()
                == old(self).last_change_sequence_number,
            old(self).writer_cache.changes@.len() > 0 ==> {
                &&& forall|i: int| 0 <= i < old(self).writer_cache.changes@.len()
                    ==> r.first_sn.value.spec_value()
                        <= #[trigger] old(self).writer_cache.changes@[
                        i
                    ].sequence_number.spec_value() <= r.last_sn.value.spec_value()
                &&& exists|i: int| 0 <= i < old(self).writer_cache.changes@.len()
                    && #[trigger] old(self).writer_cache.changes@[
                    i
                    ].sequence_number.spec_value() == r.first_sn.value.spec_value()
                &&& exists|i: int| 0 <= i < old(self).writer_cache.changes@.len()
                    && #[trigger] old(self).writer_cache.changes@[
                    i
                    ].sequence_number.spec_value() == r.last_sn.value.spec_value()
            },
    {
        self.heartbeat_count = self.heartbeat_count + 1;
        let first_sn = match self.writer_cache.get_seq_num_min() {
            Option::Some(m) => m,
            Option::None => SequenceNumber::from_i64(self.last_change_sequence_number + 1),
        };
        let last_sn = match self.writer_cache.get_seq_num_max() {
            Option::Some(m) => m,
            Option::None => SequenceNumber::from_i64(self.last_change_sequence_number),
        };
        HeartbeatSubmessage {
            endianness_flag: true,
            final_flag: false,
            liveliness_flag: false,
            reader_id: EntityIdSubmessageElement { value: reader_id },
            writer_id: EntityIdSubmessageElement { value: self.guid.entity_id },
            first_sn: SequenceNumberSubmessageElement { value: first_sn },
            last_sn: SequenceNumberSubmessageElement { value: last_sn },
            count: Count(self.heartbeat_count),
        }
    }

    /// Whether every matched reader has acknowledged this sequence number.
    pub fn is_acked_by_all(&self, sequence_number: &SequenceNumber) -> (r: bool)
        ensures
            r <==> forall|i: int| 0 <= i < self.matched_readers@.len()
                ==> sequence_number.spec_value()
                    <= #[trigger] self.matched_readers@[i].highest_acked,
    {
        let sn = sequence_number.as_i64();
        let mut i: usize = 0;
        while i < self.matched_readers.len()
            invariant
                0 <= i <= self.matched_readers@.len(),
                sn == sequence_number.spec_value(),
                forall|j: int| 0 <= j < i
                    ==> sn <= #[trigger] self.matched_readers@[j].highest_acked,
            decreases self.matched_readers@.len() - i,
        {
            if self.matched_readers[i].highest_acked < sn {
                proof {
                    assert(sequence_number.spec_value()
                        > self.matched_readers@[i as int].highest_acked);
                }
                return false;
            }
            i = i + 1;
        }
        true
    }

    /// Drop from the cache every change that every matched reader has
    /// acknowledged.
    ///
    /// A change some matched reader still misses is kept: the reliable
    /// writer's history always covers everything not yet acknowledged.
    pub fn remove_acknowledged_changes(&mut self)
        requires
            old(self).wf(),
        ensures
            final(self).wf(),
            *final(self) == (StatefulWriter {
                writer_cache: final(self).writer_cache,
                ..*old(self)
            }),
            final(self).writer_cache.changes@ == old(self).writer_cache.changes@.filter(
                |c: CacheChange|
                    exists|i: int|
                        0 <= i < old(self).matched_readers@.len()
                            && c.sequence_number.spec_value() > #[trigger] old(
                            self,
                        ).matched_readers@[i].highest_acked,
            ),
            forall|k: int|
                0 <= k < old(self).writer_cache.changes@.len() && (exists|i: int|
                    0 <= i < old(self).matched_readers@.len()
                        && old(self).writer_cache.changes@[k].sequence_number.spec_value()
                        > #[trigger] old(self).matched_readers@[i].highest_acked)
                    ==> final(self).writer_cache.changes@.contains(
                    #[trigger] old(self).writer_cache.changes@[k],
                ),
    {
        let ghost pred = |c: CacheChange|
            exists|i: int|
                0 <= i < old(self).matched_readers@.len() && c.sequence_number.spec_value()
                    > #[trigger] old(self).matched_readers@[i].highest_acked;
        let ghost pre = self.writer_cache.changes@;
        let mut i: usize = 0;
        let ghost j: int = 0;
        proof {
            reveal(Seq::filter);
            assert(pre.take(0int).filter(pred) =~= Seq::<CacheChange>::empty());
            assert(self.writer_cache.changes@ =~= pre.take(0int).filter(pred) + pre.skip(0int));
        }
        while i < self.writer_cache.changes.len()
            invariant
                self.guid == old(self).guid,
                self.topic_kind == old(self).topic_kind,
                self.reliability == old(self).reliability,
                self.push_mode == old(self).push_mode,
                self.heartbeat_period == old(self).heartbeat_period,
                self.nack_response_delay == old(self).nack_response_delay,
                self.nack_suppression_duration == old(self).nack_suppression_duration,
                self.data_max_size_serialized == old(self).data_max_size_serialized,
                self.heartbeat_count == old(self).heartbeat_count,
                self.last_change_sequence_number == old(self).last_change_sequence_number,
                self.matched_readers == old(self).matched_readers,
                old(self).wf(),
                self.writer_cache.wf(),
                self.writer_cache.history_kind == old(self).writer_cache.history_kind,
                self.writer_cache.max_samples == old(self).writer_cache.max_samples,
                0 <= j <= pre.len(),
                i == pre.take(j).filter(pred).len(),
                i <= j,
                self.writer_cache.changes@ == pre.take(j).filter(pred) + pre.skip(j),
                pred == (|c: CacheChange|
                    exists|k: int|
                        0 <= k < old(self).matched_readers@.len()
                            && c.sequence_number.spec_value() > #[trigger] old(
                            self,
                        ).matched_readers@[k].highest_acked),
            decreases self.writer_cache.changes@.len() - i,
        {
            proof {
                reveal(Seq::filter);
                pre.take(j).lemma_filter_len(pred);
                assert(j < pre.len());
                assert(self.writer_cache.changes@[i as int] == pre.skip(j)[0]);
                assert(pre.skip(j)[0] == pre[j]);
                assert(pre.take(j + 1).drop_last() =~= pre.take(j));
                assert(pre.take(j + 1).last() == pre[j]);
            }
            let sn = self.writer_cache.changes[i].sequence_number;
            let keep = !self.is_acked_by_all(&sn);
            if !keep {
                remove_change_at(&mut self.writer_cache, i);
                proof {
                    assert(!pred(pre[j]));
                    assert(pre.take(j + 1).filter(pred) =~= pre.take(j).filter(pred));
                    assert(self.writer_cache.changes@ =~= pre.take(j + 1).filter(pred) + pre.skip(
                        j + 1,
                    ));
                }
            } else {
                proof {
                    assert(pred(pre[j]));
                    assert(pre.take(j + 1).filter(pred) =~= pre.take(j).filter(pred).push(
                        pre[j],
                    ));
                    assert(self.writer_cache.changes@ =~= pre.take(j + 1).filter(pred) + pre.skip(
                        j + 1,
                    ));
                }
                i = i + 1;
            }
            proof {
                j = j + 1;
            }
        }
        proof {
            assert(pre.take(pre.len() as int) =~= pre);
            assert(self.writer_cache.changes@ =~= pre.filter(pred));
            assert forall|k: int|
                0 <= k < pre.len() && pred(pre[k]) implies self.writer_cache.changes@.contains(
                pre[k],
            ) by {
                pre.lemma_filter_contains(pred, k);
            }
        }
    }
}

/// Remove the cache change at one index, keeping the policy bounds.
fn remove_change_at(cache: &mut HistoryCache, i: usize)
    requires
        old(cache).wf(),
        i < old(cache).changes@.len(),
    ensures
        final(cache).wf(),
        final(cache).history_kind == old(cache).history_kind,
        final(cache).max_samples == old(cache).max_samples,
        final(cache).changes@ == old(cache).changes@.remove(i as int),
{
    let ghost pre = cache.changes@;
    cache.changes.remove(i);
    proof {
        match cache.history_kind {
            crate::qos::HistoryQosPolicyKind::KeepLast(n) => {
                assert forall|h: Seq<u8>| crate::history_cache::spec_instance_count(
                    cache.changes@,
                    h,
                ) <= n by {
                    assert(crate::history_cache::spec_instance_count(pre, h) <= n);
                    crate::history_cache::lemma_instance_count_remove(pre, i as int, h);
                }
            },
            crate::qos::HistoryQosPolicyKind::KeepAll => {},
        }
    }
}

} // verus!

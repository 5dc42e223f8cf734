//! Reader-side endpoint behaviours: the stateless best-effort reader, the
//! best-effort accept rule, and the reliable reader's per-writer proxy with
//! its missing-sequence-number accounting.

use vstd::prelude::*;

use crate::history_cache::{CacheChange, HistoryCache, spec_evicted_then_pushed,
    spec_params_equal};
use crate::messages::{AckNackSubmessage, DataSubmessage, EntityIdSubmessageElement,
    GapSubmessage, HeartbeatSubmessage};
use crate::qos::LengthKind;
use crate::sequence_number_set::SequenceNumberSet;
use crate::types::{ChangeKind, Count, EntityId, GuidPrefix, InstanceHandle, Locator,
    SequenceNumber, GUID};

verus! {

/// True when the sequence holds this value.
pub open spec fn spec_seq_knows(s: Seq<i64>, t: int) -> bool {
    exists|i: int| 0 <= i < s.len() && #[trigger] s[i] == t
}

/// The change a data submessage stands for, from the given source.
pub open spec fn spec_change_from_data(
    c: CacheChange,
    source_guid_prefix: GuidPrefix,
    data: DataSubmessage,
) -> bool {
    &&& c.kind == (if data.data_flag { ChangeKind::Alive } else { ChangeKind::NotAliveDisposed })
    &&& c.writer_guid.prefix.0@ == source_guid_prefix.0@
    &&& c.writer_guid.entity_id == data.writer_id.value
    &&& c.instance_handle.0@ == Seq::new(16, |i: int| 0u8)
    &&& c.sequence_number == data.writer_sn.value
    &&& c.data_value.0@ == data.serialized_payload.value@
    &&& spec_params_equal(c.inline_qos.parameter@, data.inline_qos.parameter@)
}

/// The cache took this change under its insertion policy: it was appended,
/// or it evicted the oldest change of its instance first, or a full
/// keep-all cache dropped it.
pub open spec fn spec_cache_took(pre: HistoryCache, post: HistoryCache, c: CacheChange) -> bool {
    &&& post.history_kind == pre.history_kind
    &&& post.max_samples == pre.max_samples
    &&& {
        ||| post.changes@ == pre.changes@.push(c)
        ||| spec_evicted_then_pushed(pre, post, c)
        ||| (post == pre && match pre.max_samples {
            LengthKind::Limited(max) => pre.changes@.len() >= max,
            LengthKind::Unlimited => false,
        })
    }
}

/// The behaviour of a best-effort reader with no per-writer state.
pub struct BestEffortStatelessReaderBehavior;

impl BestEffortStatelessReaderBehavior {
    /// Store the sample a data submessage carries.
    ///
    /// The submessage must carry either data or a key, not both and not
    /// neither.
    pub fn receive_data(
        reader_cache: &mut HistoryCache,
        source_guid_prefix: GuidPrefix,
        data: &DataSubmessage<'_>,
    )
        requires
            old(reader_cache).wf(),
            data.data_flag != data.key_flag,
        ensures
            final(reader_cache).wf(),
            exists|c: CacheChange|
                #[trigger] spec_change_from_data(c, source_guid_prefix, *data)
                    && spec_cache_took(*old(reader_cache), *final(reader_cache), c),
    {
        let kind = if data.data_flag {
            ChangeKind::Alive
        } else {
            ChangeKind::NotAliveDisposed
        };
        let writer_guid = GUID::new(source_guid_prefix, data.writer_id.value);
        let instance_handle = InstanceHandle::new([0; 16]);
        proof {
            assert(instance_handle.0@ =~= Seq::new(16, |i: int| 0u8));
        }
        let sequence_number = data.writer_sn.value;
        let a_change = CacheChange::new(
            kind,
            writer_guid,
            instance_handle,
            sequence_number,
            data.serialized_payload.value,
            data.inline_qos.parameter.as_slice(),
        );
        let ghost c = a_change;
        let ghost pre = *reader_cache;
        let result = reader_cache.add_change(a_change);
        proof {
            assert(spec_change_from_data(c, source_guid_prefix, *data));
            if result is Err {
                assert(spec_cache_took(pre, *reader_cache, c));
            }
        }
    }
}

/// The accept rule of a best-effort stateful reader: only a strictly higher
/// sequence number than anything yet processed from the writer is stored.
///
/// Every accepted change therefore leaves the cache holding it with a
/// sequence number above every earlier change of the same writer, so
/// delivery order agrees with sequence-number order.
pub struct BestEffortReaderBehavior;

impl BestEffortReaderBehavior {
    /// Accept the sample when its sequence number is new, else drop it.
    ///
    /// Returns whether the sample was accepted. `highest_processed` is the
    /// highest sequence number of the writer processed so far and moves to
    /// the accepted number.
    pub fn receive_data(
        reader_cache: &mut HistoryCache,
        highest_processed: &mut i64,
        source_guid_prefix: GuidPrefix,
        data: &DataSubmessage<'_>,
    ) -> (accepted: bool)
        requires
            old(reader_cache).wf(),
            data.data_flag != data.key_flag,
        ensures
            final(reader_cache).wf(),
            accepted == (data.writer_sn.value.spec_value() > *old(highest_processed)),
            accepted ==> *final(highest_processed) == data.writer_sn.value.spec_value()
                && exists|c: CacheChange|
                    #[trigger] spec_change_from_data(c, source_guid_prefix, *data)
                        && spec_cache_took(*old(reader_cache), *final(reader_cache), c),
            !accepted ==> *final(highest_processed) == *old(highest_processed)
                && *final(reader_cache) == *old(reader_cache),
    {
        let sn = data.writer_sn.value.as_i64();
        if sn > *highest_processed {
            *highest_processed = sn;
            BestEffortStatelessReaderBehavior::receive_data(
                reader_cache,
                source_guid_prefix,
                data,
            );
            true
        } else {
            false
        }
    }
}

/// The per-writer state a reliable stateful reader keeps: which sequence
/// numbers of the writer have arrived or were declared irrelevant.
pub struct WriterProxy {
    pub remote_writer_guid: GUID,
    pub remote_group_entity_id: EntityId,
    pub unicast_locator_list: Vec<Locator>,
    pub multicast_locator_list: Vec<Locator>,
    pub received: Vec<i64>,
    pub last_received_heartbeat_count: i32,
    pub acknack_count: i32,
}

impl WriterProxy {
    /// The sequence number is known: received, or irrelevant by a gap.
    pub open spec fn spec_knows(self, s: int) -> bool {
        spec_seq_knows(self.received@, s)
    }

    /// No sequence number is tracked twice.
    pub open spec fn wf(self) -> bool {
        forall|i: int, j: int| 0 <= i < j < self.received@.len()
            ==> #[trigger] self.received@[i] != #[trigger] self.received@[j]
    }

    /// A fresh proxy for one remote writer, reachable at its locators.
    pub fn new(
        remote_writer_guid: GUID,
        unicast_locator_list: Vec<Locator>,
        multicast_locator_list: Vec<Locator>,
        remote_group_entity_id: EntityId,
    ) -> (r: WriterProxy)
        ensures
            r.remote_writer_guid == remote_writer_guid,
            r.remote_group_entity_id == remote_group_entity_id,
            r.unicast_locator_list == unicast_locator_list,
            r.multicast_locator_list == multicast_locator_list,
            forall|s: int| !r.spec_knows(s),
            r.last_received_heartbeat_count == 0,
            r.acknack_count == 0,
            r.wf(),
    {
        WriterProxy {
            remote_writer_guid,
            remote_group_entity_id,
            unicast_locator_list,
            multicast_locator_list,
            received: Vec::new(),
            last_received_heartbeat_count: 0,
            acknack_count: 0,
        }
    }

    /// The remote writer this proxy stands for.
    pub fn remote_writer_guid(&self) -> (r: &GUID)
        ensures
            r == self.remote_writer_guid,
    {
        &self.remote_writer_guid
    }

    /// Whether a sequence number has arrived or is irrelevant.
    pub fn knows(&self, s: i64) -> (r: bool)
        ensures
            r == self.spec_knows(s as int),
    {
        let mut i: usize = 0;
        while i < self.received.len()
            invariant
                0 <= i <= self.received@.len(),
                forall|j: int| 0 <= j < i ==> self.received@[j] != s,
            decreases self.received@.len() - i,
        {
            if self.received[i] == s {
                return true;
            }
            i = i + 1;
        }
        false
    }

    /// Record one arrived sequence number.
    pub fn received_change_set(&mut self, s: i64)
        requires
            old(self).wf(),
        ensures
            final(self).wf(),
            final(self).spec_knows(s as int),
            forall|t: int| #[trigger] final(self).spec_knows(t)
                <==> (old(self).spec_knows(t) || t == s),
            final(self).remote_writer_guid == old(self).remote_writer_guid,
            final(self).remote_group_entity_id == old(self).remote_group_entity_id,
            final(self).unicast_locator_list == old(self).unicast_locator_list,
            final(self).multicast_locator_list == old(self).multicast_locator_list,
            final(self).last_received_heartbeat_count == old(self).last_received_heartbeat_count,
            final(self).acknack_count == old(self).acknack_count,
    {
        if !self.knows(s) {
            let ghost pre = self.received@;
            self.received.push(s);
            proof {
                assert forall|t: int| self.spec_knows(t)
                    implies (spec_seq_knows(pre, t) || t == s) by {
                    let i = choose|i: int| 0 <= i < self.received@.len()
                        && #[trigger] self.received@[i] == t;
                    if i < pre.len() {
                        assert(pre[i] == t);
                    }
                }
                assert forall|t: int| (spec_seq_knows(pre, t) || t == s)
                    implies self.spec_knows(t) by {
                    if t == s {
                        assert(self.received@[pre.len() as int] == s);
                    } else {
                        let i = choose|i: int| 0 <= i < pre.len() && #[trigger] pre[i] == t;
                        assert(self.received@[i] == t);
                    }
                }
            }
        }
    }

    /// Record one sequence number a gap declared irrelevant.
    pub fn irrelevant_change_set(&mut self, s: i64)
        requires
            old(self).wf(),
        ensures
            final(self).wf(),
            final(self).spec_knows(s as int),
            forall|t: int| #[trigger] final(self).spec_knows(t)
                <==> (old(self).spec_knows(t) || t == s),
            final(self).remote_writer_guid == old(self).remote_writer_guid,
            final(self).remote_group_entity_id == old(self).remote_group_entity_id,
            final(self).unicast_locator_list == old(self).unicast_locator_list,
            final(self).multicast_locator_list == old(self).multicast_locator_list,
            final(self).last_received_heartbeat_count == old(self).last_received_heartbeat_count,
            final(self).acknack_count == old(self).acknack_count,
    {
        self.received_change_set(s);
    }

    /// The sequence numbers of `first..=last` that are still missing, in
    /// increasing order.
    pub fn missing_changes(&self, first: i64, last: i64) -> (r: Vec<i64>)
        requires
            -0x8000_0000_0000_0000 < first,
            last < 0x7fff_ffff_ffff_ffff,
        ensures
            forall|i: int| 0 <= i < r@.len()
                ==> first <= #[trigger] r@[i] <= last && !self.spec_knows(r@[i] as int),
            forall|s: int| first <= s <= last && !self.spec_knows(s)
                ==> exists|i: int| 0 <= i < r@.len() && #[trigger] r@[i] == s,
            forall|i: int, j: int| 0 <= i < j < r@.len() ==> #[trigger] r@[i] < #[trigger] r@[j],
    {
        let mut r: Vec<i64> = Vec::new();
        if last < first {
            return r;
        }
        let mut s: i64 = first;
        while s <= last
            invariant
                first <= s <= last + 1,
                last < 0x7fff_ffff_ffff_ffff,
                forall|i: int| 0 <= i < r@.len()
                    ==> first <= #[trigger] r@[i] < s && !self.spec_knows(r@[i] as int),
                forall|t: int| first <= t < s && !self.spec_knows(t)
                    ==> exists|i: int| 0 <= i < r@.len() && #[trigger] r@[i] == t,
                forall|i: int, j: int| 0 <= i < j < r@.len() ==> #[trigger] r@[i] < #[trigger] r@[j],
            decreases last + 1 - s,
        {
            if !self.knows(s) {
                let ghost pre = r@;
                r.push(s);
                proof {
                    assert forall|t: int| first <= t < s + 1 && !self.spec_knows(t)
                        implies exists|i: int| 0 <= i < r@.len() && #[trigger] r@[i] == t by {
                        if t == s {
                            assert(r@[r@.len() - 1] == s);
                        } else {
                            let i = choose|i: int| 0 <= i < pre.len() && #[trigger] pre[i] == t;
                            assert(r@[i] == t);
                        }
                    }
                }
            }
            s = s + 1;
        }
        r
    }

    /// Process one heartbeat: note its count and answer with the missing set.
    ///
    /// A heartbeat with a count at or below the last one seen is stale and
    /// ignored. A fresh one yields the acknack state: its base is the first
    /// missing number of `first_sn..=last_sn` (one past the last sequence
    /// number when nothing is missing), and its set holds every missing
    /// number that lies within 255 of the base. When every missing number
    /// lies within that window the set holds the missing numbers exactly.
    pub fn process_heartbeat(&mut self, heartbeat: &HeartbeatSubmessage) -> (r: Option<
        AckNackSubmessage,
    >)
        requires
            old(self).wf(),
            -0x8000_0000_0000_0000 < heartbeat.first_sn.value.spec_value(),
            heartbeat.last_sn.value.spec_value() < 0x7fff_ffff_ffff_fefe,
            heartbeat.first_sn.value.spec_value() <= heartbeat.last_sn.value.spec_value(),
            old(self).acknack_count < 0x7fff_ffff,
        ensures
            final(self).wf(),
            spec_heartbeat_step(*old(self), *final(self), *heartbeat, r),
            forall|t: int| #[trigger] final(self).spec_knows(t) <==> old(self).spec_knows(t),
            final(self).remote_writer_guid == old(self).remote_writer_guid,
            final(self).remote_group_entity_id == old(self).remote_group_entity_id,
            final(self).unicast_locator_list == old(self).unicast_locator_list,
            final(self).multicast_locator_list == old(self).multicast_locator_list,
            heartbeat.count.0 <= old(self).last_received_heartbeat_count ==> r is None
                && *final(self) == *old(self),
            heartbeat.count.0 > old(self).last_received_heartbeat_count ==> {
                &&& final(self).last_received_heartbeat_count == heartbeat.count.0
                &&& final(self).acknack_count == old(self).acknack_count + 1
                &&& match r {
                    Option::Some(ack) => {
                        let first = heartbeat.first_sn.value.spec_value();
                        let last = heartbeat.last_sn.value.spec_value();
                        let base = ack.reader_sn_state.base.spec_value();
                        &&& ack.reader_sn_state.wf()
                        &&& ack.reader_id.value == old(self).remote_writer_guid.entity_id
                        &&& ack.writer_id.value == heartbeat.writer_id.value
                        &&& ack.count.0 == old(self).acknack_count + 1
                        &&& forall|s: int| first <= s < base ==> old(self).spec_knows(s)
                        &&& (base == last + 1 || (first <= base <= last
                            && !old(self).spec_knows(base)))
                        &&& forall|s: int| #[trigger] ack.reader_sn_state.spec_contains(s)
                            ==> first <= s <= last && !old(self).spec_knows(s)
                        &&& forall|s: int| first <= s <= last && !old(self).spec_knows(s)
                            && s - base < 256
                            ==> #[trigger] ack.reader_sn_state.spec_contains(s)
                    },
                    Option::None => false,
                }
            },
    {
        if heartbeat.count.0 <= self.last_received_heartbeat_count {
            return Option::None;
        }
        self.last_received_heartbeat_count = heartbeat.count.0;
        self.acknack_count = self.acknack_count + 1;
        let first = heartbeat.first_sn.value.as_i64();
        let last = heartbeat.last_sn.value.as_i64();
        let missing = self.missing_changes(first, last);
        let reader_sn_state = build_reader_sn_state(&missing, first, last);
        let ghost sset = reader_sn_state;
        let ghost base = sset.base.spec_value();
        proof {
            assert(forall|t: int| #[trigger] self.spec_knows(t) == old(self).spec_knows(t));
            assert(forall|t: int| #[trigger] old(self).spec_knows(t) == self.spec_knows(t));
            assert forall|v: int| #[trigger] sset.spec_contains(v)
                implies first <= v <= last && !self.spec_knows(v) by {
                if missing@.len() > 0 {
                    let b = choose|b: int| 0 <= b < missing@.len() && #[trigger] missing@[b] == v;
                    assert(first <= missing@[b] <= last && !self.spec_knows(missing@[b] as int));
                }
            }
            assert forall|v: int| first <= v <= last && !self.spec_knows(v) && v - base < 256
                implies #[trigger] sset.spec_contains(v) by {
                assert(exists|b: int| 0 <= b < missing@.len() && #[trigger] missing@[b] == v);
                let b = choose|b: int| 0 <= b < missing@.len() && #[trigger] missing@[b] == v;
                assert(missing@.len() > 0);
                assert(missing@[0] <= missing@[b]) by {
                    if b > 0 {
                        assert(missing@[0] < missing@[b]);
                    }
                }
                assert(missing@[b] - missing@[0] < 256);
            }
            assert forall|v: int| first <= v < base implies self.spec_knows(v) by {
                if !self.spec_knows(v) {
                    assert(v <= last) by {
                        if missing@.len() == 0 {
                            assert(base == last + 1);
                        } else {
                            assert(base == missing@[0] && missing@[0] <= last);
                        }
                    }
                    let a = choose|a: int| 0 <= a < missing@.len() && #[trigger] missing@[a] == v;
                    assert(missing@[0] <= missing@[a]) by {
                        if a > 0 {
                            assert(missing@[0] < missing@[a]);
                        }
                    }
                    assert(base <= v);
                    assert(false);
                }
            }
            if missing@.len() > 0 {
                assert(base == missing@[0]);
                assert(first <= base <= last && !self.spec_knows(base)) by {
                    assert(first <= missing@[0] <= last
                        && !self.spec_knows(missing@[0] as int));
                }
            }
        }
        let ack = AckNackSubmessage {
            endianness_flag: true,
            final_flag: true,
            reader_id: EntityIdSubmessageElement { value: self.remote_writer_guid.entity_id },
            writer_id: EntityIdSubmessageElement { value: heartbeat.writer_id.value },
            reader_sn_state,
            count: Count(self.acknack_count),
        };
        proof {
            let first_v = heartbeat.first_sn.value.spec_value();
            let last_v = heartbeat.last_sn.value.spec_value();
            assert(ack.reader_sn_state.wf());
            assert(forall|s: int| first_v <= s < base ==> old(self).spec_knows(s));
            assert(base == last_v + 1 || (first_v <= base <= last_v
                && !old(self).spec_knows(base)));
            assert(forall|s: int| #[trigger] ack.reader_sn_state.spec_contains(s)
                ==> first_v <= s <= last_v && !old(self).spec_knows(s));
            assert(forall|s: int| first_v <= s <= last_v && !old(self).spec_knows(s)
                && s - base < 256 ==> #[trigger] ack.reader_sn_state.spec_contains(s));
        }
        Option::Some(ack)
    }

    /// Process one gap: every sequence number it names becomes irrelevant.
    ///
    /// The gap names the numbers from `gap_start` up to just below the list
    /// base, and the members of the list itself.
    pub fn process_gap(&mut self, gap: &GapSubmessage)
        requires
            old(self).wf(),
            gap.gap_start.value.spec_value() > -0x8000_0000_0000_0000,
            gap.gap_list.wf(),
        ensures
            final(self).wf(),
            spec_gap_step(*old(self), *final(self), *gap),
            final(self).remote_writer_guid == old(self).remote_writer_guid,
            final(self).remote_group_entity_id == old(self).remote_group_entity_id,
            final(self).unicast_locator_list == old(self).unicast_locator_list,
            final(self).multicast_locator_list == old(self).multicast_locator_list,
            final(self).last_received_heartbeat_count == old(self).last_received_heartbeat_count,
            final(self).acknack_count == old(self).acknack_count,
            forall|t: int| #[trigger] final(self).spec_knows(t)
                <==> (old(self).spec_knows(t)
                    || (gap.gap_start.value.spec_value() <= t
                        && t < gap.gap_list.base.spec_value())
                    || gap.gap_list.spec_contains(t)),
    {
        let start = gap.gap_start.value.as_i64();
        let base = gap.gap_list.base.as_i64();
        let mut s: i64 = start;
        while s < base
            invariant
                old(self).wf(),
                self.wf(),
                start <= s,
                s <= base || s == start,
                self.remote_writer_guid == old(self).remote_writer_guid,
                self.remote_group_entity_id == old(self).remote_group_entity_id,
                self.unicast_locator_list == old(self).unicast_locator_list,
                self.multicast_locator_list == old(self).multicast_locator_list,
                self.last_received_heartbeat_count == old(self).last_received_heartbeat_count,
                self.acknack_count == old(self).acknack_count,
                forall|t: int| #[trigger] self.spec_knows(t)
                    <==> (old(self).spec_knows(t) || (start <= t < s)),
            decreases base - s,
        {
            self.received_change_set(s);
            s = s + 1;
        }
        let ghost entry = *self;
        let mut it = gap.gap_list.iter();
        loop
            invariant
                it.set == gap.gap_list,
                it.set.wf(),
                it.index <= 256,
                self.wf(),
                self.remote_writer_guid == entry.remote_writer_guid,
                self.remote_group_entity_id == entry.remote_group_entity_id,
                self.unicast_locator_list == entry.unicast_locator_list,
                self.multicast_locator_list == entry.multicast_locator_list,
                self.last_received_heartbeat_count == entry.last_received_heartbeat_count,
                self.acknack_count == entry.acknack_count,
                forall|t: int| #[trigger] self.spec_knows(t)
                    <==> (entry.spec_knows(t)
                        || (gap.gap_list.spec_contains(t)
                            && t - gap.gap_list.base.spec_value() < it.index)),
            ensures
                self.wf(),
                self.remote_writer_guid == entry.remote_writer_guid,
                self.remote_group_entity_id == entry.remote_group_entity_id,
                self.unicast_locator_list == entry.unicast_locator_list,
                self.multicast_locator_list == entry.multicast_locator_list,
                self.last_received_heartbeat_count == entry.last_received_heartbeat_count,
                self.acknack_count == entry.acknack_count,
                forall|t: int| #[trigger] self.spec_knows(t)
                    <==> (entry.spec_knows(t) || gap.gap_list.spec_contains(t)),
            decreases 256 - it.index,
        {
            let ghost pre_index = it.index;
            match it.next() {
                Option::Some(sn) => {
                    self.received_change_set(sn.as_i64());
                    proof {
                        assert forall|t: int| self.spec_knows(t)
                            implies (entry.spec_knows(t)
                                || (gap.gap_list.spec_contains(t)
                                    && t - gap.gap_list.base.spec_value() < it.index)) by {
                            if t == sn.spec_value() {
                                assert(gap.gap_list.spec_contains(t));
                            }
                        }
                        assert forall|t: int| (gap.gap_list.spec_contains(t)
                            && t - gap.gap_list.base.spec_value() < it.index)
                            implies self.spec_knows(t) by {
                            let off = t - gap.gap_list.base.spec_value();
                            assert(gap.gap_list.spec_contains_offset(off));
                            assert(0 <= off < 256);
                            if off == it.index - 1 {
                                assert(sn.spec_value()
                                    == gap.gap_list.base.spec_value() + off);
                                assert(t == sn.spec_value());
                                assert(self.spec_knows(t));
                            } else if pre_index <= off {
                                assert(!gap.gap_list.spec_contains_offset(off));
                                assert(false);
                            } else {
                                assert(off < pre_index);
                                assert(gap.gap_list.spec_contains(t)
                                    && t - gap.gap_list.base.spec_value() < pre_index);
                                assert(self.spec_knows(t));
                            }
                        }
                    }
                },
                Option::None => {
                    proof {
                        assert forall|t: int| gap.gap_list.spec_contains(t)
                            implies t - gap.gap_list.base.spec_value() < it.index by {
                            let off = t - gap.gap_list.base.spec_value();
                            assert(gap.gap_list.spec_contains_offset(off));
                            if off >= pre_index {
                                assert(false);
                            }
                        }
                    }
                    break;
                },
            }
        }
    }
}


/// Build the acknack state for a set of missing sequence numbers: the base
/// is the first missing number, one past `last` when nothing is missing,
/// and the set holds every missing number within 255 of the base.
#[verifier::rlimit(60)]
fn build_reader_sn_state(missing: &Vec<i64>, first: i64, last: i64) -> (r: SequenceNumberSet)
    requires
        -0x8000_0000_0000_0000 < first,
        first <= last,
        last < 0x7fff_ffff_ffff_fefe,
        forall|i: int| 0 <= i < missing@.len() ==> first <= #[trigger] missing@[i] <= last,
        forall|i: int, j: int| 0 <= i < j < missing@.len()
            ==> #[trigger] missing@[i] < #[trigger] missing@[j],
    ensures
        r.wf(),
        missing@.len() == 0 ==> r.base.spec_value() == last + 1 && forall|v: int|
            !r.spec_contains(v),
        missing@.len() > 0 ==> {
            &&& r.base.spec_value() == missing@[0]
            &&& forall|v: int| #[trigger] r.spec_contains(v)
                ==> exists|b: int| 0 <= b < missing@.len() && #[trigger] missing@[b] == v
            &&& forall|b: int| 0 <= b < missing@.len() && missing@[b] - missing@[0] < 256
                ==> r.spec_contains(#[trigger] missing@[b] as int)
        },
{
    if missing.len() == 0 {
        let r = SequenceNumberSet::empty_at(SequenceNumber::from_i64(last + 1));
        return r;
    }
    let base: i64 = missing[0];
    let mut in_window: Vec<SequenceNumber> = Vec::new();
    let mut i: usize = 0;
    while i < missing.len()
        invariant
            0 <= i <= missing@.len(),
            missing@.len() > 0,
            first <= base <= last,
            last < 0x7fff_ffff_ffff_fefe,
            base == missing@[0],
            forall|a: int, b: int| 0 <= a < b < missing@.len()
                ==> #[trigger] missing@[a] < #[trigger] missing@[b],
            forall|a: int| 0 <= a < missing@.len() ==> first <= #[trigger] missing@[a] <= last,
            in_window@.len() <= i,
            forall|a: int| 0 <= a < in_window@.len()
                ==> 0 <= #[trigger] in_window@[a].spec_value() - base < 256,
            forall|a: int| 0 <= a < in_window@.len()
                ==> exists|b: int| 0 <= b < i && #[trigger] missing@[b]
                    == #[trigger] in_window@[a].spec_value(),
            forall|b: int| 0 <= b < i && missing@[b] - base < 256
                ==> exists|a: int| 0 <= a < in_window@.len()
                    && #[trigger] in_window@[a].spec_value() == missing@[b],
            in_window@.len() > 0 ==> in_window@[0].spec_value() == base,
            i > 0 ==> in_window@.len() > 0,
        decreases missing@.len() - i,
    {
        let m = missing[i];
        proof {
            if i > 0 {
                assert(missing@[0] < missing@[i as int]);
            }
        }
        if m < base + 256 {
            let ghost pre = in_window@;
            in_window.push(SequenceNumber::from_i64(m));
            proof {
                assert(in_window@[in_window@.len() - 1].spec_value() == m);
                assert forall|b: int| 0 <= b < i + 1 && missing@[b] - base < 256
                    implies exists|a: int| 0 <= a < in_window@.len()
                        && #[trigger] in_window@[a].spec_value() == missing@[b] by {
                    if b < i {
                        let a = choose|a: int| 0 <= a < pre.len()
                            && #[trigger] pre[a].spec_value() == missing@[b];
                        assert(in_window@[a].spec_value() == missing@[b]);
                    } else {
                        assert(in_window@[in_window@.len() - 1].spec_value() == missing@[b]);
                    }
                }
            }
        }
        i = i + 1;
    }
    proof {
        assert(forall|a: int| 0 <= a < in_window@.len()
            ==> 0 <= #[trigger] in_window@[a].spec_value() - in_window@[0].spec_value() < 256);
    }
    let r = SequenceNumberSet::from_slice(in_window.as_slice());
    proof {
        assert(in_window@[0] == in_window@[0]);
        assert forall|v: int| #[trigger] r.spec_contains(v)
            implies exists|b: int| 0 <= b < missing@.len() && #[trigger] missing@[b] == v by {
            if v == in_window@[0].spec_value() {
                assert(missing@[0] == v);
            } else {
                let a = choose|a: int| 0 <= a < in_window@.len()
                    && #[trigger] in_window@[a].spec_value() == v;
                let b = choose|b: int| 0 <= b < missing@.len()
                    && #[trigger] missing@[b] == in_window@[a].spec_value();
                assert(missing@[b] == v);
            }
        }
        assert forall|b: int| 0 <= b < missing@.len() && missing@[b] - missing@[0] < 256
            implies r.spec_contains(#[trigger] missing@[b] as int) by {
            let a = choose|a: int| 0 <= a < in_window@.len()
                && #[trigger] in_window@[a].spec_value() == missing@[b];
            assert(r.spec_contains(in_window@[a].spec_value()));
        }
    }
    r
}


/// How one writer proxy changes when it processes one heartbeat, and what
/// acknack it owes: exactly the effect of `process_heartbeat`.
pub open spec fn spec_heartbeat_step(
    pre: WriterProxy,
    post: WriterProxy,
    heartbeat: HeartbeatSubmessage,
    r: Option<AckNackSubmessage>,
) -> bool {
    &&& (forall|t: int| #[trigger] post.spec_knows(t) <==> pre.spec_knows(t))
    &&& post.remote_writer_guid == pre.remote_writer_guid
    &&& post.remote_group_entity_id == pre.remote_group_entity_id
    &&& post.unicast_locator_list == pre.unicast_locator_list
    &&& post.multicast_locator_list == pre.multicast_locator_list
    &&& (heartbeat.count.0 <= pre.last_received_heartbeat_count ==> r is None && post == pre)
    &&& (heartbeat.count.0 > pre.last_received_heartbeat_count ==> {
        &&& post.last_received_heartbeat_count == heartbeat.count.0
        &&& post.acknack_count == pre.acknack_count + 1
        &&& match r {
            Option::Some(ack) => {
                let first = heartbeat.first_sn.value.spec_value();
                let last = heartbeat.last_sn.value.spec_value();
                let base = ack.reader_sn_state.base.spec_value();
                &&& ack.reader_sn_state.wf()
                &&& ack.reader_id.value == pre.remote_writer_guid.entity_id
                &&& ack.writer_id.value == heartbeat.writer_id.value
                &&& ack.count.0 == pre.acknack_count + 1
                &&& forall|s: int| first <= s < base ==> pre.spec_knows(s)
                &&& (base == last + 1 || (first <= base <= last && !pre.spec_knows(base)))
                &&& forall|s: int| #[trigger] ack.reader_sn_state.spec_contains(s)
                    ==> first <= s <= last && !pre.spec_knows(s)
                &&& forall|s: int| first <= s <= last && !pre.spec_knows(s) && s - base < 256
                    ==> #[trigger] ack.reader_sn_state.spec_contains(s)
            },
            Option::None => false,
        }
    })
}

/// How one writer proxy changes when it processes one gap: exactly the
/// effect of `process_gap`.
pub open spec fn spec_gap_step(pre: WriterProxy, post: WriterProxy, gap: GapSubmessage) -> bool {
    &&& post.remote_writer_guid == pre.remote_writer_guid
    &&& post.remote_group_entity_id == pre.remote_group_entity_id
    &&& post.unicast_locator_list == pre.unicast_locator_list
    &&& post.multicast_locator_list == pre.multicast_locator_list
    &&& post.last_received_heartbeat_count == pre.last_received_heartbeat_count
    &&& post.acknack_count == pre.acknack_count
    &&& forall|t: int| #[trigger] post.spec_knows(t) <==> (pre.spec_knows(t) || (
    gap.gap_start.value.spec_value() <= t && t < gap.gap_list.base.spec_value())
        || gap.gap_list.spec_contains(t))
}

/// A reliable reader that has received every sequence number of a
/// contiguous prefix acknowledges past it.
///
/// The acknack a fresh heartbeat earns carries a base with two properties:
/// everything below the base is known, and the base itself is either one
/// past the heartbeat range or unknown. For any `s` whose whole prefix
/// `first..=s` has been received, such a base lies at `s + 1` or beyond.
pub proof fn lemma_acknack_base_past_received_prefix(
    pre: WriterProxy,
    ack_base: int,
    first: int,
    last: int,
    s: int,
)
    requires
        first <= s <= last,
        forall|t: int| first <= t <= s ==> pre.spec_knows(t),
        forall|t: int| first <= t < ack_base ==> pre.spec_knows(t),
        ack_base == last + 1 || (first <= ack_base <= last && !pre.spec_knows(ack_base)),
    ensures
        ack_base >= s + 1,
{
    if ack_base <= s {
        assert(pre.spec_knows(ack_base));
    }
}

} // verus!

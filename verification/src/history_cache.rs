//! The per-endpoint store of cache changes, with the history and
//! resource-limits insertion policy.

use vstd::prelude::*;

use crate::error::DdsError;
use crate::qos::{HistoryQosPolicyKind, LengthKind};
use crate::types::{ChangeKind, Data, InstanceHandle, Parameter, ParameterList, SequenceNumber,
    GUID};

verus! {

/// One sample as stored locally: immutable once inserted.
pub struct CacheChange {
    pub kind: ChangeKind,
    pub writer_guid: GUID,
    pub instance_handle: InstanceHandle,
    pub sequence_number: SequenceNumber,
    pub data_value: Data,
    pub inline_qos: ParameterList,
}

/// Two parameters carry the same id, length and value bytes.
pub open spec fn spec_param_equal(a: Parameter, b: Parameter) -> bool {
    a.parameter_id == b.parameter_id && a.length == b.length && a.value@ == b.value@
}

/// Two parameter sequences agree element for element.
pub open spec fn spec_params_equal(a: Seq<Parameter>, b: Seq<Parameter>) -> bool {
    a.len() == b.len() && forall|i: int| 0 <= i < a.len()
        ==> spec_param_equal(#[trigger] a[i], b[i])
}

impl CacheChange {
    /// Build a change from the fields a data submessage carries.
    pub fn new(
        kind: ChangeKind,
        writer_guid: GUID,
        instance_handle: InstanceHandle,
        sequence_number: SequenceNumber,
        data_value: &[u8],
        inline_qos: &[Parameter],
    ) -> (r: CacheChange)
        ensures
            r.kind == kind,
            r.writer_guid == writer_guid,
            r.instance_handle == instance_handle,
            r.sequence_number == sequence_number,
            r.data_value.0@ == data_value@,
            spec_params_equal(r.inline_qos.parameter@, inline_qos@),
    {
        let mut data: Vec<u8> = Vec::new();
        let mut i: usize = 0;
        while i < data_value.len()
            invariant
                0 <= i <= data_value@.len(),
                data@ == data_value@.take(i as int),
            decreases data_value@.len() - i,
        {
            data.push(data_value[i]);
            i = i + 1;
            proof {
                assert(data@ =~= data_value@.take(i as int));
            }
        }
        let mut params: Vec<Parameter> = Vec::new();
        let mut j: usize = 0;
        while j < inline_qos.len()
            invariant
                0 <= j <= inline_qos@.len(),
                params@.len() == j,
                forall|m: int| 0 <= m < j
                    ==> spec_param_equal(#[trigger] params@[m], inline_qos@[m]),
            decreases inline_qos@.len() - j,
        {
            params.push(clone_parameter(&inline_qos[j]));
            j = j + 1;
        }
        proof {
            assert(data@ =~= data_value@);
        }
        CacheChange {
            kind,
            writer_guid,
            instance_handle,
            sequence_number,
            data_value: Data(data),
            inline_qos: ParameterList { parameter: params },
        }
    }
}

/// Copy one parameter, value bytes included.
fn clone_parameter(p: &Parameter) -> (r: Parameter)
    ensures
        spec_param_equal(r, *p),
{
    let mut value: Vec<u8> = Vec::new();
    let mut i: usize = 0;
    while i < p.value.len()
        invariant
            0 <= i <= p.value@.len(),
            value@ == p.value@.take(i as int),
        decreases p.value@.len() - i,
    {
        value.push(p.value[i]);
        i = i + 1;
        proof {
            assert(value@ =~= p.value@.take(i as int));
        }
    }
    proof {
        assert(value@ =~= p.value@);
    }
    Parameter { parameter_id: p.parameter_id, length: p.length, value }
}

/// Copy one cache change, payload included.
pub fn clone_cache_change(c: &CacheChange) -> (r: CacheChange)
    ensures
        r.kind == c.kind,
        r.writer_guid == c.writer_guid,
        r.instance_handle == c.instance_handle,
        r.sequence_number == c.sequence_number,
        r.data_value.0@ == c.data_value.0@,
        spec_params_equal(r.inline_qos.parameter@, c.inline_qos.parameter@),
{
    CacheChange::new(
        c.kind,
        c.writer_guid,
        c.instance_handle,
        c.sequence_number,
        c.data_value.0.as_slice(),
        c.inline_qos.parameter.as_slice(),
    )
}

/// How many changes of the sequence belong to this instance.
pub open spec fn spec_instance_count(s: Seq<CacheChange>, handle: Seq<u8>) -> nat
    decreases s.len(),
{
    if s.len() == 0 {
        0
    } else {
        spec_instance_count(s.drop_last(), handle) + if s.last().instance_handle.0@ == handle {
            1nat
        } else {
            0nat
        }
    }
}

/// Removing one element lowers the count of its instance by one and leaves
/// every other count alone.
pub proof fn lemma_instance_count_remove(s: Seq<CacheChange>, k: int, handle: Seq<u8>)
    requires
        0 <= k < s.len(),
    ensures
        spec_instance_count(s.remove(k), handle) == spec_instance_count(s, handle)
            - if s[k].instance_handle.0@ == handle { 1int } else { 0int },
    decreases s.len(),
{
    if k == s.len() - 1 {
        assert(s.remove(k) =~= s.drop_last());
    } else {
        lemma_instance_count_remove(s.drop_last(), k, handle);
        assert(s.remove(k).drop_last() =~= s.drop_last().remove(k));
        assert(s.remove(k).last() == s.last());
    }
}

/// A count never exceeds the length of the sequence.
pub proof fn lemma_instance_count_le_len(s: Seq<CacheChange>, handle: Seq<u8>)
    ensures
        spec_instance_count(s, handle) <= s.len(),
    decreases s.len(),
{
    if s.len() > 0 {
        lemma_instance_count_le_len(s.drop_last(), handle);
    }
}

/// A positive count means some member belongs to the instance.
proof fn lemma_instance_count_positive_has_member(s: Seq<CacheChange>, handle: Seq<u8>)
    requires
        spec_instance_count(s, handle) > 0,
    ensures
        exists|j: int| 0 <= j < s.len() && #[trigger] s[j].instance_handle.0@ == handle,
    decreases s.len(),
{
    if s.last().instance_handle.0@ == handle {
        assert(s[s.len() - 1].instance_handle.0@ == handle);
    } else {
        lemma_instance_count_positive_has_member(s.drop_last(), handle);
        let j = choose|j: int| 0 <= j < s.len() - 1
            && #[trigger] s.drop_last()[j].instance_handle.0@ == handle;
        assert(s[j].instance_handle.0@ == handle);
    }
}

/// With no member of the instance the count is zero.
proof fn lemma_no_member_count_zero(s: Seq<CacheChange>, handle: Seq<u8>)
    requires
        forall|j: int| 0 <= j < s.len() ==> s[j].instance_handle.0@ != handle,
    ensures
        spec_instance_count(s, handle) == 0,
    decreases s.len(),
{
    if s.len() > 0 {
        lemma_no_member_count_zero(s.drop_last(), handle);
    }
}

/// A member of a filtered sequence is a member of the sequence it came from.
pub proof fn lemma_filter_member_of<T>(s: Seq<T>, pred: spec_fn(T) -> bool, k: int)
    requires
        0 <= k < s.filter(pred).len(),
    ensures
        exists|m: int| 0 <= m < s.len() && s[m] == #[trigger] s.filter(pred)[k],
    decreases s.len(),
{
    reveal(Seq::filter);
    if s.len() > 0 {
        if pred(s.last()) && k == s.filter(pred).len() - 1 {
            assert(s.filter(pred)[k] == s.last());
            assert(s[s.len() - 1] == s.filter(pred)[k]);
        } else {
            lemma_filter_member_of(s.drop_last(), pred, k);
            let m = choose|m: int| 0 <= m < s.drop_last().len() && s.drop_last()[m]
                == #[trigger] s.drop_last().filter(pred)[k];
            assert(s[m] == s.filter(pred)[k]);
        }
    }
}

/// Filtering never raises the count of any instance.
proof fn lemma_filter_instance_count(
    s: Seq<CacheChange>,
    pred: spec_fn(CacheChange) -> bool,
    h: Seq<u8>,
)
    ensures
        spec_instance_count(s.filter(pred), h) <= spec_instance_count(s, h),
    decreases s.len(),
{
    reveal(Seq::filter);
    if s.len() > 0 {
        lemma_filter_instance_count(s.drop_last(), pred, h);
        if pred(s.last()) {
            assert(s.filter(pred) == s.drop_last().filter(pred).push(s.last()));
            assert(s.filter(pred).drop_last() =~= s.drop_last().filter(pred));
            assert(s.filter(pred).last() == s.last());
        } else {
            assert(s.filter(pred) == s.drop_last().filter(pred));
        }
    }
}

/// The store was full for this instance: the lowest-sequence-number change
/// of the instance left and the new change was appended.
pub open spec fn spec_evicted_then_pushed(
    pre: HistoryCache,
    post: HistoryCache,
    change: CacheChange,
) -> bool {
    match pre.history_kind {
        HistoryQosPolicyKind::KeepLast(n) => {
            &&& spec_instance_count(pre.changes@, change.instance_handle.0@) >= n
            &&& exists|k: int|
                {
                    &&& 0 <= k < pre.changes@.len()
                    &&& pre.changes@[k].instance_handle.0@ == change.instance_handle.0@
                    &&& forall|j: int|
                        0 <= j < pre.changes@.len() && pre.changes@[j].instance_handle.0@
                            == change.instance_handle.0@
                            ==> pre.changes@[k].sequence_number.spec_value()
                            <= #[trigger] pre.changes@[j].sequence_number.spec_value()
                    &&& post.changes@ == pre.changes@.remove(k).push(change)
                }
        },
        HistoryQosPolicyKind::KeepAll => false,
    }
}

/// The ordered store of changes of one endpoint.
///
/// The store enforces the history policy: under `KeepLast(n)` at most `n`
/// changes of each instance are retained, and under `KeepAll` at most
/// `max_samples` changes are held in total.
pub struct HistoryCache {
    pub history_kind: HistoryQosPolicyKind,
    pub max_samples: LengthKind,
    pub changes: Vec<CacheChange>,
}

impl HistoryCache {
    /// The policy is self-consistent: a kept depth is at least one.
    pub open spec fn valid_policy(self) -> bool {
        match self.history_kind {
            HistoryQosPolicyKind::KeepLast(n) => n >= 1,
            HistoryQosPolicyKind::KeepAll => true,
        }
    }

    /// The history bound holds of every instance.
    pub open spec fn wf(self) -> bool {
        self.valid_policy() && match self.history_kind {
            HistoryQosPolicyKind::KeepLast(n) => forall|h: Seq<u8>|
                spec_instance_count(self.changes@, h) <= n,
            HistoryQosPolicyKind::KeepAll => match self.max_samples {
                LengthKind::Limited(max) => self.changes@.len() <= max,
                LengthKind::Unlimited => true,
            },
        }
    }

    /// An empty cache under the given policy.
    pub fn new(history_kind: HistoryQosPolicyKind, max_samples: LengthKind) -> (r: HistoryCache)
        requires
            history_kind matches HistoryQosPolicyKind::KeepLast(n) ==> n >= 1,
        ensures
            r.history_kind == history_kind,
            r.max_samples == max_samples,
            r.changes@ == Seq::<CacheChange>::empty(),
            r.wf(),
    {
        let r = HistoryCache { history_kind, max_samples, changes: Vec::new() };
        proof {
            assert(r.changes@ =~= Seq::<CacheChange>::empty());
            match r.history_kind {
                HistoryQosPolicyKind::KeepLast(n) => {
                    assert forall|h: Seq<u8>| spec_instance_count(r.changes@, h) <= n by {
                        lemma_instance_count_le_len(r.changes@, h);
                    }
                },
                HistoryQosPolicyKind::KeepAll => {},
            }
        }
        r
    }

    /// Whether the cache would refuse the next change: a keep-all cache at
    /// its sample limit.
    pub open spec fn spec_is_full(self) -> bool {
        self.history_kind == HistoryQosPolicyKind::KeepAll && match self.max_samples {
            LengthKind::Limited(max) => self.changes@.len() >= max,
            LengthKind::Unlimited => false,
        }
    }

    /// Whether the cache would refuse the next change.
    pub fn is_full(&self) -> (r: bool)
        ensures
            r == self.spec_is_full(),
    {
        match self.history_kind {
            HistoryQosPolicyKind::KeepAll => match self.max_samples {
                LengthKind::Limited(max) => self.changes.len() >= max as usize,
                LengthKind::Unlimited => false,
            },
            HistoryQosPolicyKind::KeepLast(_) => false,
        }
    }

    /// The stored changes in insertion order.
    pub fn changes(&self) -> (r: &Vec<CacheChange>)
        ensures
            r == self.changes,
    {
        &self.changes
    }

    /// Insert one change under the history policy.
    ///
    /// Under `KeepLast(n)`, when the instance already holds `n` or more
    /// changes, the lowest-sequence-number change of that instance leaves
    /// first. Under `KeepAll`, a full cache refuses the change with
    /// `OutOfResources` and stays as it is.
    pub fn add_change(&mut self, change: CacheChange) -> (r: Result<(), DdsError>)
        requires
            old(self).wf(),
        ensures
            final(self).wf(),
            final(self).history_kind == old(self).history_kind,
            final(self).max_samples == old(self).max_samples,
            match r {
                Ok(()) => {
                    ||| final(self).changes@ == old(self).changes@.push(change)
                    ||| spec_evicted_then_pushed(*old(self), *final(self), change)
                },
                Err(e) => {
                    &&& e == DdsError::OutOfResources
                    &&& old(self).history_kind == HistoryQosPolicyKind::KeepAll
                    &&& match old(self).max_samples {
                        LengthKind::Limited(max) => old(self).changes@.len() >= max,
                        LengthKind::Unlimited => false,
                    }
                    &&& *final(self) == *old(self)
                },
            },
    {
        match self.history_kind {
            HistoryQosPolicyKind::KeepAll => {
                match self.max_samples {
                    LengthKind::Limited(max) => {
                        if self.changes.len() >= max as usize {
                            return Err(DdsError::OutOfResources);
                        }
                    },
                    LengthKind::Unlimited => {},
                }
                self.changes.push(change);
                Ok(())
            },
            HistoryQosPolicyKind::KeepLast(n) => {
                let ghost handle = change.instance_handle.0@;
                let count = self.count_instance(&change.instance_handle);
                if count >= n as usize {
                    let k = self.find_lowest_of_instance(&change.instance_handle);
                    let ghost pre = self.changes@;
                    self.changes.remove(k);
                    proof {
                        assert forall|h: Seq<u8>| spec_instance_count(self.changes@, h)
                            <= spec_instance_count(pre, h) by {
                            lemma_instance_count_remove(pre, k as int, h);
                        }
                        lemma_instance_count_remove(pre, k as int, handle);
                    }
                    let ghost mid = self.changes@;
                    self.changes.push(change);
                    proof {
                        assert forall|h: Seq<u8>| spec_instance_count(self.changes@, h)
                            <= n by {
                            assert(spec_instance_count(old(self).changes@, h) <= n);
                            assert(self.changes@.drop_last() =~= mid);
                            assert(spec_instance_count(self.changes@, h)
                                == spec_instance_count(mid, h) + if change.instance_handle.0@
                                == h {
                                1int
                            } else {
                                0int
                            });
                            if change.instance_handle.0@ == h {
                                assert(spec_instance_count(mid, h) == spec_instance_count(pre, h)
                                    - 1);
                            }
                        }
                        assert(spec_evicted_then_pushed(*old(self), *self, change));
                    }
                    Ok(())
                } else {
                    let ghost pre = self.changes@;
                    self.changes.push(change);
                    proof {
                        assert forall|h: Seq<u8>| spec_instance_count(self.changes@, h)
                            <= n by {
                            assert(spec_instance_count(old(self).changes@, h) <= n);
                            assert(self.changes@.drop_last() =~= pre);
                            assert(spec_instance_count(self.changes@, h)
                                == spec_instance_count(pre, h) + if change.instance_handle.0@
                                == h {
                                1int
                            } else {
                                0int
                            });
                        }
                    }
                    Ok(())
                }
            },
        }
    }

    /// Count the stored changes of one instance.
    pub fn count_instance(&self, handle: &InstanceHandle) -> (r: usize)
        ensures
            r == spec_instance_count(self.changes@, handle.0@),
    {
        proof {
            lemma_instance_count_le_len(self.changes@, handle.0@);
        }
        let mut count: usize = 0;
        let mut i: usize = 0;
        while i < self.changes.len()
            invariant
                0 <= i <= self.changes@.len(),
                count == spec_instance_count(self.changes@.take(i as int), handle.0@),
                count <= i,
            decreases self.changes@.len() - i,
        {
            proof {
                assert(self.changes@.take(i + 1).drop_last() =~= self.changes@.take(i as int));
                assert(self.changes@.take(i + 1).last() == self.changes@[i as int]);
                lemma_instance_count_le_len(self.changes@.take(i as int), handle.0@);
            }
            if crate::types::bytes_eq(&self.changes[i].instance_handle.0, &handle.0) {
                count = count + 1;
            }
            i = i + 1;
        }
        proof {
            assert(self.changes@.take(self.changes@.len() as int) =~= self.changes@);
        }
        count
    }

    /// The index of the lowest-sequence-number change of one instance.
    fn find_lowest_of_instance(&self, handle: &InstanceHandle) -> (k: usize)
        requires
            spec_instance_count(self.changes@, handle.0@) > 0,
        ensures
            0 <= k < self.changes@.len(),
            self.changes@[k as int].instance_handle.0@ == handle.0@,
            forall|j: int| 0 <= j < self.changes@.len()
                && self.changes@[j].instance_handle.0@ == handle.0@
                ==> self.changes@[k as int].sequence_number.spec_value()
                    <= #[trigger] self.changes@[j].sequence_number.spec_value(),
    {
        proof {
            lemma_instance_count_positive_has_member(self.changes@, handle.0@);
        }
        let mut best: usize = 0;
        let mut found = false;
        let mut i: usize = 0;
        while i < self.changes.len()
            invariant
                0 <= i <= self.changes@.len(),
                found ==> 0 <= best < i && self.changes@[best as int].instance_handle.0@
                    == handle.0@ && forall|j: int|
                    0 <= j < i && self.changes@[j].instance_handle.0@ == handle.0@
                        ==> self.changes@[best as int].sequence_number.spec_value()
                        <= #[trigger] self.changes@[j].sequence_number.spec_value(),
                !found ==> forall|j: int| 0 <= j < i
                    ==> self.changes@[j].instance_handle.0@ != handle.0@,
            decreases self.changes@.len() - i,
        {
            if crate::types::bytes_eq(&self.changes[i].instance_handle.0, &handle.0) {
                if !found {
                    best = i;
                    found = true;
                } else {
                    let cur = self.changes[i].sequence_number.as_i64();
                    let best_sn = self.changes[best].sequence_number.as_i64();
                    if cur < best_sn {
                        best = i;
                    }
                }
            }
            i = i + 1;
        }
        proof {
            if !found {
                lemma_no_member_count_zero(self.changes@, handle.0@);
            }
        }
        best
    }

    /// Remove the changes of one writer with one sequence number.
    pub fn remove_change(&mut self, writer_guid: &GUID, sequence_number: &SequenceNumber)
        requires
            old(self).wf(),
        ensures
            final(self).wf(),
            final(self).history_kind == old(self).history_kind,
            final(self).max_samples == old(self).max_samples,
            final(self).changes@ == old(self).changes@.filter(
                |c: CacheChange|
                    !(c.writer_guid.spec_to_bytes() == writer_guid.spec_to_bytes()
                        && c.sequence_number.spec_value() == sequence_number.spec_value()),
            ),
    {
        let ghost pred = |c: CacheChange|
            !(c.writer_guid.spec_to_bytes() == writer_guid.spec_to_bytes()
                && c.sequence_number.spec_value() == sequence_number.spec_value());
        let ghost pre = self.changes@;
        let sn = sequence_number.as_i64();
        let mut i: usize = 0;
        let ghost j: int = 0;
        proof {
            reveal(Seq::filter);
            assert(pre.take(0int).filter(pred) =~= Seq::<CacheChange>::empty());
            assert(self.changes@ =~= pre.take(0int).filter(pred) + pre.skip(0int));
        }
        while i < self.changes.len()
            invariant
                self.history_kind == old(self).history_kind,
                self.max_samples == old(self).max_samples,
                0 <= j <= pre.len(),
                i == pre.take(j).filter(pred).len(),
                i <= j,
                self.changes@ == pre.take(j).filter(pred) + pre.skip(j),
                sn == sequence_number.spec_value(),
                pred == (|c: CacheChange|
                    !(c.writer_guid.spec_to_bytes() == writer_guid.spec_to_bytes()
                        && c.sequence_number.spec_value() == sequence_number.spec_value())),
            decreases self.changes@.len() - i,
        {
            proof {
                reveal(Seq::filter);
                pre.take(j).lemma_filter_len(pred);
                assert(j < pre.len());
                assert(self.changes@[i as int] == pre.skip(j)[0]);
                assert(pre.skip(j)[0] == pre[j]);
                assert(pre.take(j + 1).drop_last() =~= pre.take(j));
                assert(pre.take(j + 1).last() == pre[j]);
            }
            let c = &self.changes[i];
            let same = guid_eq(&c.writer_guid, writer_guid) && c.sequence_number.as_i64() == sn;
            if same {
                self.changes.remove(i);
                proof {
                    assert(!pred(pre[j]));
                    assert(pre.take(j + 1).filter(pred) =~= pre.take(j).filter(pred));
                    assert(self.changes@ =~= pre.take(j + 1).filter(pred) + pre.skip(j + 1));
                }
            } else {
                proof {
                    assert(pred(pre[j]));
                    assert(pre.take(j + 1).filter(pred) =~= pre.take(j).filter(pred).push(
                        pre[j],
                    ));
                    assert(self.changes@ =~= pre.take(j + 1).filter(pred) + pre.skip(j + 1));
                }
                i = i + 1;
            }
            proof {
                j = j + 1;
            }
        }
        proof {
            assert(pre.skip(j).len() == 0 ==> j == pre.len());
            assert(pre.take(pre.len() as int) =~= pre);
            assert(self.changes@ =~= pre.filter(pred));
            match self.history_kind {
                HistoryQosPolicyKind::KeepLast(n) => {
                    assert forall|h: Seq<u8>| spec_instance_count(self.changes@, h) <= n by {
                        assert(spec_instance_count(old(self).changes@, h) <= n);
                        lemma_filter_instance_count(pre, pred, h);
                    }
                },
                HistoryQosPolicyKind::KeepAll => {
                    pre.lemma_filter_len(pred);
                },
            }
        }
    }

    /// The lowest sequence number stored, over all writers.
    pub fn get_seq_num_min(&self) -> (r: Option<SequenceNumber>)
        ensures
            match r {
                Option::Some(m) => {
                    &&& exists|i: int| 0 <= i < self.changes@.len()
                        && #[trigger] self.changes@[i].sequence_number.spec_value()
                            == m.spec_value()
                    &&& forall|i: int| 0 <= i < self.changes@.len()
                        ==> m.spec_value()
                            <= #[trigger] self.changes@[i].sequence_number.spec_value()
                },
                Option::None => self.changes@.len() == 0,
            },
    {
        if self.changes.len() == 0 {
            return Option::None;
        }
        let mut best: usize = 0;
        let mut i: usize = 1;
        while i < self.changes.len()
            invariant
                1 <= i <= self.changes@.len(),
                0 <= best < i,
                forall|j: int| 0 <= j < i
                    ==> self.changes@[best as int].sequence_number.spec_value()
                        <= #[trigger] self.changes@[j].sequence_number.spec_value(),
            decreases self.changes@.len() - i,
        {
            if self.changes[i].sequence_number.as_i64() < self.changes[
                best
            ].sequence_number.as_i64() {
                best = i;
            }
            i = i + 1;
        }
        let m = self.changes[best].sequence_number;
        assert(self.changes@[best as int].sequence_number.spec_value() == m.spec_value());
        Option::Some(m)
    }

    /// The highest sequence number stored, over all writers.
    pub fn get_seq_num_max(&self) -> (r: Option<SequenceNumber>)
        ensures
            match r {
                Option::Some(m) => {
                    &&& exists|i: int| 0 <= i < self.changes@.len()
                        && #[trigger] self.changes@[i].sequence_number.spec_value()
                            == m.spec_value()
                    &&& forall|i: int| 0 <= i < self.changes@.len()
                        ==> m.spec_value()
                            >= #[trigger] self.changes@[i].sequence_number.spec_value()
                },
                Option::None => self.changes@.len() == 0,
            },
    {
        if self.changes.len() == 0 {
            return Option::None;
        }
        let mut best: usize = 0;
        let mut i: usize = 1;
        while i < self.changes.len()
            invariant
                1 <= i <= self.changes@.len(),
                0 <= best < i,
                forall|j: int| 0 <= j < i
                    ==> self.changes@[best as int].sequence_number.spec_value()
                        >= #[trigger] self.changes@[j].sequence_number.spec_value(),
            decreases self.changes@.len() - i,
        {
            if self.changes[i].sequence_number.as_i64() > self.changes[
                best
            ].sequence_number.as_i64() {
                best = i;
            }
            i = i + 1;
        }
        let m = self.changes[best].sequence_number;
        assert(self.changes@[best as int].sequence_number.spec_value() == m.spec_value());
        Option::Some(m)
    }
}

/// Compare two identifiers.
pub fn guid_eq(a: &GUID, b: &GUID) -> (r: bool)
    ensures
        r <==> a.spec_to_bytes() == b.spec_to_bytes(),
{
    let r = crate::types::bytes_eq(&a.prefix.0, &b.prefix.0) && crate::types::bytes_eq(
        &a.entity_id.entity_key,
        &b.entity_id.entity_key,
    ) && a.entity_id.entity_kind == b.entity_id.entity_kind;
    proof {
        if r {
            assert(a.spec_to_bytes() =~= b.spec_to_bytes());
        } else {
            if a.spec_to_bytes() == b.spec_to_bytes() {
                if *a != *b {
                    crate::types::lemma_guid_handle_injective(*a, *b);
                }
                assert(*a == *b);
            }
        }
    }
    r
}

} // verus!

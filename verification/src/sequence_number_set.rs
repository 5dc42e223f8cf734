//! The wire set of sequence numbers: a base number and a 256-bit bitmap of
//! offsets, as carried by acknack and gap submessages.

use vstd::prelude::*;

use crate::types::SequenceNumber;

verus! {

/// True when bit `pos` of the word is set.
pub open spec fn bit_at(word: i32, pos: u32) -> bool {
    (word >> pos) & 1i32 == 1i32
}

/// A set of sequence numbers: every member is `base + off` for an offset
/// `off` in `0..256` whose bitmap bit is set.
#[derive(Clone, Copy)]
pub struct SequenceNumberSet {
    pub base: SequenceNumber,
    pub bitmap: [i32; 8],
}

impl SequenceNumberSet {
    /// True when the bitmap bit for this offset is set.
    pub open spec fn spec_contains_offset(self, off: int) -> bool {
        0 <= off < 256 && bit_at(self.bitmap@[off / 32], (off % 32) as u32)
    }

    /// True when the set holds this sequence-number value.
    pub open spec fn spec_contains(self, value: int) -> bool {
        self.spec_contains_offset(value - self.base.spec_value())
    }

    /// A base whose members all fit in a 64-bit sequence number.
    pub open spec fn wf(self) -> bool {
        -0x8000_0000_0000_0000 <= self.base.spec_value()
            && self.base.spec_value() + 255 < 0x8000_0000_0000_0000
    }

    /// Whether every member of the set fits in a 64-bit sequence number.
    pub fn bounds_ok(&self) -> (r: bool)
        ensures
            r == self.wf(),
    {
        let b = self.base.as_i64();
        b < 0x7fff_ffff_ffff_ff01
    }

    /// The base of the set.
    pub fn base(&self) -> (r: &SequenceNumber)
        ensures
            r == self.base,
    {
        &self.base
    }

    /// Walk the members of the set in increasing order.
    pub fn iter(self) -> (r: SequenceNumberSetIterator)
        ensures
            r.set == self,
            r.index == 0,
    {
        SequenceNumberSetIterator { set: self, index: 0 }
    }

    /// A set with the given base and no members.
    pub fn empty_at(base: SequenceNumber) -> (r: SequenceNumberSet)
        ensures
            r.base == base,
            forall|v: int| !r.spec_contains(v),
    {
        let r = SequenceNumberSet { base, bitmap: [0; 8] };
        proof {
            assert forall|v: int| !r.spec_contains(v) by {
                let off = v - r.base.spec_value();
                if 0 <= off < 256 {
                    assert(r.bitmap@[off / 32] == 0);
                    let p = (off % 32) as u32;
                    assert(!bit_at(0i32, p)) by (bit_vector);
                }
            }
        }
        r
    }

    /// Collect sorted sequence numbers into a set.
    ///
    /// The first number becomes the base and is always a member; every other
    /// number must lie within 255 of the base.
    pub fn from_slice(values: &[SequenceNumber]) -> (r: SequenceNumberSet)
        requires
            forall|i: int| 0 <= i < values@.len()
                ==> 0 <= #[trigger] values@[i].spec_value() - values@[0].spec_value() < 256,
        ensures
            values@.len() == 0 ==> r.base.spec_value() == 0
                && forall|v: int| !r.spec_contains(v),
            values@.len() > 0 ==> r.base == values@[0]
                && forall|v: int| #[trigger] r.spec_contains(v)
                    <==> (v == values@[0].spec_value()
                        || exists|i: int| 0 <= i < values@.len()
                            && #[trigger] values@[i].spec_value() == v),
    {
        if values.len() == 0 {
            let r = SequenceNumberSet {
                base: SequenceNumber { high: 0, low: 0 },
                bitmap: [0; 8],
            };
            proof {
                assert forall|v: int| !r.spec_contains(v) by {
                    let off = v - r.base.spec_value();
                    if 0 <= off < 256 {
                        assert(r.bitmap@[off / 32] == 0);
                        let p = (off % 32) as u32;
                        assert(!bit_at(0i32, p)) by (bit_vector);
                    }
                }
            }
            return r;
        }
        let base = values[0];
        let ghost base_v = base.spec_value();
        let base_i64 = base.as_i64();
        let mut bitmap: [i32; 8] = [1, 0, 0, 0, 0, 0, 0, 0];
        proof {
            assert forall|off: int| #[trigger] spec_bitmap_has(bitmap@, off) <==> off == 0 by {
                lemma_fresh_bitmap(bitmap@, off);
            }
        }
        let mut idx: usize = 1;
        while idx < values.len()
            invariant
                1 <= idx <= values@.len(),
                base == values@[0],
                base_v == base.spec_value(),
                base_i64 == base_v,
                bitmap@.len() == 8,
                forall|i: int| 0 <= i < values@.len()
                    ==> 0 <= #[trigger] values@[i].spec_value() - base_v < 256,
                forall|off: int| #[trigger] spec_bitmap_has(bitmap@, off)
                    <==> (off == 0 || exists|j: int| 1 <= j < idx
                        && #[trigger] values@[j].spec_value() - base_v == off),
            decreases values@.len() - idx,
        {
            let value = values[idx];
            let offset = value.as_i64() - base_i64;
            let array_index = (offset / 32) as usize;
            let bit_position = (offset % 32) as u32;
            let ghost old_bitmap = bitmap@;
            let word = bitmap[array_index];
            bitmap[array_index] = word | (1i32 << bit_position);
            proof {
                lemma_set_bit(word, bit_position);
                let off_new = value.spec_value() - base_v;
                assert(off_new / 32 == array_index && off_new % 32 == bit_position);
                assert forall|off: int| #[trigger] spec_bitmap_has(bitmap@, off)
                    <==> (off == 0 || exists|j: int| 1 <= j < idx + 1
                        && #[trigger] values@[j].spec_value() - base_v == off) by {
                    if 0 <= off < 256 {
                        if off == off_new {
                            assert(values@[idx as int].spec_value() - base_v == off);
                        } else {
                            if off / 32 == array_index {
                                assert(off % 32 != bit_position) by {
                                    vstd::arithmetic::div_mod::lemma_fundamental_div_mod(off, 32);
                                    vstd::arithmetic::div_mod::lemma_fundamental_div_mod(
                                        off_new, 32);
                                };
                            }
                            assert(spec_bitmap_has(bitmap@, off)
                                <==> spec_bitmap_has(old_bitmap, off));
                        }
                    }
                }
            }
            idx = idx + 1;
        }
        let r = SequenceNumberSet { base, bitmap };
        proof {
            assert forall|v: int| #[trigger] r.spec_contains(v)
                <==> (v == base_v || exists|i: int| 0 <= i < values@.len()
                    && #[trigger] values@[i].spec_value() == v) by {
                let off = v - base_v;
                assert(r.spec_contains(v) <==> spec_bitmap_has(bitmap@, off));
                if spec_bitmap_has(bitmap@, off) && off != 0 {
                    let j = choose|j: int| 1 <= j < idx
                        && #[trigger] values@[j].spec_value() - base_v == off;
                    assert(values@[j].spec_value() == v);
                }
                if v == base_v {
                    assert(spec_bitmap_has(bitmap@, 0));
                }
                if exists|i: int| 0 <= i < values@.len()
                    && #[trigger] values@[i].spec_value() == v {
                    let i = choose|i: int| 0 <= i < values@.len()
                        && #[trigger] values@[i].spec_value() == v;
                    if i == 0 {
                        assert(spec_bitmap_has(bitmap@, 0));
                    } else {
                        assert(values@[i].spec_value() - base_v == off);
                    }
                }
            }
        }
        r
    }
}

/// True when the bitmap words hold a set bit for this offset.
pub open spec fn spec_bitmap_has(words: Seq<i32>, off: int) -> bool {
    0 <= off < 256 && bit_at(words[off / 32], (off % 32) as u32)
}

/// A bitmap whose first word is one holds exactly the offset zero.
proof fn lemma_fresh_bitmap(words: Seq<i32>, off: int)
    requires
        words.len() == 8,
        words[0] == 1i32,
        forall|i: int| 1 <= i < 8 ==> words[i] == 0i32,
    ensures
        spec_bitmap_has(words, off) <==> off == 0,
{
    if 0 <= off < 256 {
        let p = (off % 32) as u32;
        if off == 0 {
            assert(bit_at(1i32, 0u32)) by (bit_vector);
        } else if off / 32 == 0 {
            assert(p != 0 && p < 32);
            assert(forall|q: u32| 0 < q < 32 ==> !bit_at(1i32, q)) by (bit_vector);
        } else {
            assert(forall|q: u32| q < 32 ==> !bit_at(0i32, q)) by (bit_vector);
        }
    }
}

/// Setting one bit sets that bit and leaves every other bit alone.
proof fn lemma_set_bit(word: i32, pos: u32)
    requires
        pos < 32,
    ensures
        bit_at(word | (1i32 << pos), pos),
        forall|q: u32| q < 32 && q != pos
            ==> bit_at(word | (1i32 << pos), q) == #[trigger] bit_at(word, q),
{
    assert(pos < 32 ==> bit_at(word | (1i32 << pos), pos)) by (bit_vector);
    assert(forall|q: u32| pos < 32 && q < 32 && q != pos
        ==> bit_at(word | (1i32 << pos), q) == #[trigger] bit_at(word, q)) by (bit_vector);
}

/// Walks the members of a sequence-number set in increasing order.
pub struct SequenceNumberSetIterator {
    pub set: SequenceNumberSet,
    pub index: u32,
}

impl SequenceNumberSetIterator {
    /// The next member of the set at or above the cursor, if any.
    pub fn next(&mut self) -> (r: Option<SequenceNumber>)
        requires
            old(self).set.wf(),
            old(self).index <= 256,
        ensures
            final(self).set == old(self).set,
            final(self).index <= 256,
            match r {
                Option::Some(sn) => {
                    let off = final(self).index - 1;
                    &&& old(self).index <= off < 256
                    &&& old(self).set.spec_contains_offset(off)
                    &&& sn.spec_value() == old(self).set.base.spec_value() + off
                    &&& forall|j: int| old(self).index <= j < off
                        ==> !old(self).set.spec_contains_offset(j)
                },
                Option::None => {
                    &&& final(self).index == 256
                    &&& forall|j: int| old(self).index <= j < 256
                        ==> !old(self).set.spec_contains_offset(j)
                },
            },
    {
        let base_i64 = self.set.base.as_i64();
        let mut index: u32 = self.index;
        while index < 256
            invariant
                self.set.wf(),
                old(self).index <= index <= 256,
                self == old(self),
                base_i64 == self.set.base.spec_value(),
                forall|j: int| old(self).index <= j < index
                    ==> !self.set.spec_contains_offset(j),
            decreases 256 - index,
        {
            let array_index = (index / 32) as usize;
            let bit_position = index % 32;
            let word = self.set.bitmap[array_index];
            if word & (1i32 << bit_position) == (1i32 << bit_position) {
                proof {
                    assert(bit_position < 32 && (word & (1i32 << bit_position)
                        == (1i32 << bit_position)) ==> bit_at(word, bit_position))
                        by (bit_vector);
                }
                let next_seq_num = SequenceNumber::from_i64(base_i64 + (index as i64));
                self.index = index + 1;
                return Option::Some(next_seq_num);
            }
            proof {
                assert(bit_position < 32 && (word & (1i32 << bit_position)
                    != (1i32 << bit_position)) ==> !bit_at(word, bit_position)) by (bit_vector);
            }
            index = index + 1;
        }
        self.index = 256;
        Option::None
    }
}

} // verus!

//! Four 32-bit signed lanes.
use vstd::prelude::*;

use crate::bits::{join, lemma_not_lane, mask};
use crate::i32x2::I32x2;
use crate::u32x4::U32x4;

verus! {

/// Four 32-bit signed lanes, lane 0 first.
#[derive(Clone, Copy)]
pub struct I32x4(pub [i32; 4]);

impl View for I32x4 {
    type V = Seq<i32>;

    open spec fn view(&self) -> Seq<i32> {
        self.0@
    }
}

/// The smaller of two lanes.
pub open spec fn min_lane(a: i32, b: i32) -> i32 {
    if a < b {
        a
    } else {
        b
    }
}

/// A lane shifted right logically by the count held in another lane; counts of 32 and
/// above clear the lane.
pub open spec fn shr_lane(a: i32, count: i32) -> i32 {
    if (count as u32) < 32u32 {
        ((a as u32) >> (count as u32)) as i32
    } else {
        0i32
    }
}

impl I32x4 {
    /// The vector with lanes `a`, `b`, `c`, `d`.
    pub open spec fn lanes(a: i32, b: i32, c: i32, d: i32) -> I32x4 {
        I32x4([a, b, c, d])
    }

    /// Lane-wise minimum.
    pub open spec fn min_spec(self, other: I32x4) -> I32x4 {
        I32x4::lanes(
            min_lane(self.0[0], other.0[0]),
            min_lane(self.0[1], other.0[1]),
            min_lane(self.0[2], other.0[2]),
            min_lane(self.0[3], other.0[3]),
        )
    }

    /// Lane-wise equality mask.
    pub open spec fn packed_eq_spec(self, other: I32x4) -> U32x4 {
        U32x4::lanes(
            mask(self.0[0] == other.0[0]),
            mask(self.0[1] == other.0[1]),
            mask(self.0[2] == other.0[2]),
            mask(self.0[3] == other.0[3]),
        )
    }

    /// Lane-wise signed greater-than mask.
    pub open spec fn packed_gt_spec(self, other: I32x4) -> U32x4 {
        U32x4::lanes(
            mask(self.0[0] > other.0[0]),
            mask(self.0[1] > other.0[1]),
            mask(self.0[2] > other.0[2]),
            mask(self.0[3] > other.0[3]),
        )
    }

    /// Lane-wise signed less-or-equal mask.
    pub open spec fn packed_le_spec(self, other: I32x4) -> U32x4 {
        U32x4::lanes(
            mask(self.0[0] <= other.0[0]),
            mask(self.0[1] <= other.0[1]),
            mask(self.0[2] <= other.0[2]),
            mask(self.0[3] <= other.0[3]),
        )
    }

    /// Builds a vector from its four lanes.
    pub fn new(a: i32, b: i32, c: i32, d: i32) -> (r: I32x4)
        ensures
            r == I32x4::lanes(a, b, c, d),
            r@ == seq![a, b, c, d],
    {
        let r = I32x4([a, b, c, d]);
        assert(r@ =~= seq![a, b, c, d]);
        r
    }

    /// The vector with `x` in every lane.
    pub fn splat(x: i32) -> (r: I32x4)
        ensures
            r == I32x4::lanes(x, x, x, x),
    {
        I32x4([x, x, x, x])
    }

    /// Lanes 0 and 1.
    pub fn xy(self) -> (r: I32x2)
        ensures
            r == I32x2::lanes(self.0[0], self.0[1]),
    {
        I32x2(join(self.0[0] as u32, self.0[1] as u32))
    }

    /// Lanes 0 and 3.
    pub fn xw(self) -> (r: I32x2)
        ensures
            r == I32x2::lanes(self.0[0], self.0[3]),
    {
        I32x2(join(self.0[0] as u32, self.0[3] as u32))
    }

    /// Lanes 1 and 0.
    pub fn yx(self) -> (r: I32x2)
        ensures
            r == I32x2::lanes(self.0[1], self.0[0]),
    {
        I32x2(join(self.0[1] as u32, self.0[0] as u32))
    }

    /// Lanes 2 and 1.
    pub fn zy(self) -> (r: I32x2)
        ensures
            r == I32x2::lanes(self.0[2], self.0[1]),
    {
        I32x2(join(self.0[2] as u32, self.0[1] as u32))
    }

    /// Lanes 2 and 3.
    pub fn zw(self) -> (r: I32x2)
        ensures
            r == I32x2::lanes(self.0[2], self.0[3]),
    {
        I32x2(join(self.0[2] as u32, self.0[3] as u32))
    }

    /// Lanes 0 and 1 of `self` followed by lanes 0 and 1 of `other`.
    pub fn concat_xy_xy(self, other: I32x4) -> (r: I32x4)
        ensures
            r == I32x4::lanes(self.0[0], self.0[1], other.0[0], other.0[1]),
    {
        I32x4([self.0[0], self.0[1], other.0[0], other.0[1]])
    }

    /// Lane-wise minimum.
    pub fn min(self, other: I32x4) -> (r: I32x4)
        ensures
            r == self.min_spec(other),
    {
        I32x4(
            [
                if self.0[0] < other.0[0] { self.0[0] } else { other.0[0] },
                if self.0[1] < other.0[1] { self.0[1] } else { other.0[1] },
                if self.0[2] < other.0[2] { self.0[2] } else { other.0[2] },
                if self.0[3] < other.0[3] { self.0[3] } else { other.0[3] },
            ],
        )
    }

    /// Lane-wise equality: every bit set where the lanes are equal, none where they differ.
    pub fn packed_eq(self, other: I32x4) -> (r: U32x4)
        ensures
            r == self.packed_eq_spec(other),
    {
        U32x4(
            [
                if self.0[0] == other.0[0] { 0xffff_ffffu32 } else { 0u32 },
                if self.0[1] == other.0[1] { 0xffff_ffffu32 } else { 0u32 },
                if self.0[2] == other.0[2] { 0xffff_ffffu32 } else { 0u32 },
                if self.0[3] == other.0[3] { 0xffff_ffffu32 } else { 0u32 },
            ],
        )
    }

    /// Lane-wise signed greater-than: every bit set where `self` is greater, none elsewhere.
    pub fn packed_gt(self, other: I32x4) -> (r: U32x4)
        ensures
            r == self.packed_gt_spec(other),
    {
        U32x4(
            [
                if self.0[0] > other.0[0] { 0xffff_ffffu32 } else { 0u32 },
                if self.0[1] > other.0[1] { 0xffff_ffffu32 } else { 0u32 },
                if self.0[2] > other.0[2] { 0xffff_ffffu32 } else { 0u32 },
                if self.0[3] > other.0[3] { 0xffff_ffffu32 } else { 0u32 },
            ],
        )
    }

    /// Lane-wise signed less-or-equal, the complement of `packed_gt`.
    pub fn packed_le(self, other: I32x4) -> (r: U32x4)
        ensures
            r == self.packed_le_spec(other),
    {
        let gt = self.packed_gt(other);
        proof {
            lemma_not_lane(0, self.0[0] > other.0[0]);
            lemma_not_lane(0, self.0[1] > other.0[1]);
            lemma_not_lane(0, self.0[2] > other.0[2]);
            lemma_not_lane(0, self.0[3] > other.0[3]);
        }
        core::ops::Not::not(gt)
    }

    /// The lane at `index`.
    pub fn index(&self, index: usize) -> (r: i32)
        requires
            index < 4,
        ensures
            r == self@[index as int],
    {
        self.0[index]
    }

    /// Replaces the lane at `index` with `value`.
    pub fn set(&mut self, index: usize, value: i32)
        requires
            index < 4,
        ensures
            final(self)@ == old(self)@.update(index as int, value),
    {
        let ghost before = self@;
        self.0[index] = value;
        assert(self@ =~= before.update(index as int, value));
    }
}

impl Default for I32x4 {
    fn default() -> (r: I32x4)
        ensures
            r == I32x4::lanes(0, 0, 0, 0),
    {
        I32x4([0, 0, 0, 0])
    }
}

impl core::ops::Add<I32x4> for I32x4 {
    type Output = I32x4;

    fn add(self, other: I32x4) -> (r: I32x4) {
        I32x4(
            [
                self.0[0].wrapping_add(other.0[0]),
                self.0[1].wrapping_add(other.0[1]),
                self.0[2].wrapping_add(other.0[2]),
                self.0[3].wrapping_add(other.0[3]),
            ],
        )
    }
}

impl vstd::std_specs::ops::AddSpecImpl<I32x4> for I32x4 {
    open spec fn obeys_add_spec() -> bool {
        true
    }

    open spec fn add_req(self, rhs: I32x4) -> bool {
        true
    }

    /// Lane-wise two's complement addition, wrapping on overflow.
    open spec fn add_spec(self, rhs: I32x4) -> I32x4 {
        I32x4::lanes(
            vstd::wrapping::i32_specs::wrapping_add(self.0[0], rhs.0[0]),
            vstd::wrapping::i32_specs::wrapping_add(self.0[1], rhs.0[1]),
            vstd::wrapping::i32_specs::wrapping_add(self.0[2], rhs.0[2]),
            vstd::wrapping::i32_specs::wrapping_add(self.0[3], rhs.0[3]),
        )
    }
}

impl core::ops::Sub<I32x4> for I32x4 {
    type Output = I32x4;

    fn sub(self, other: I32x4) -> (r: I32x4) {
        I32x4(
            [
                self.0[0].wrapping_sub(other.0[0]),
                self.0[1].wrapping_sub(other.0[1]),
                self.0[2].wrapping_sub(other.0[2]),
                self.0[3].wrapping_sub(other.0[3]),
            ],
        )
    }
}

impl vstd::std_specs::ops::SubSpecImpl<I32x4> for I32x4 {
    open spec fn obeys_sub_spec() -> bool {
        true
    }

    open spec fn sub_req(self, rhs: I32x4) -> bool {
        true
    }

    /// Lane-wise two's complement subtraction, wrapping on overflow.
    open spec fn sub_spec(self, rhs: I32x4) -> I32x4 {
        I32x4::lanes(
            vstd::wrapping::i32_specs::wrapping_sub(self.0[0], rhs.0[0]),
            vstd::wrapping::i32_specs::wrapping_sub(self.0[1], rhs.0[1]),
            vstd::wrapping::i32_specs::wrapping_sub(self.0[2], rhs.0[2]),
            vstd::wrapping::i32_specs::wrapping_sub(self.0[3], rhs.0[3]),
        )
    }
}

impl core::ops::Mul<I32x4> for I32x4 {
    type Output = I32x4;

    fn mul(self, other: I32x4) -> (r: I32x4) {
        I32x4(
            [
                self.0[0].wrapping_mul(other.0[0]),
                self.0[1].wrapping_mul(other.0[1]),
                self.0[2].wrapping_mul(other.0[2]),
                self.0[3].wrapping_mul(other.0[3]),
            ],
        )
    }
}

impl vstd::std_specs::ops::MulSpecImpl<I32x4> for I32x4 {
    open spec fn obeys_mul_spec() -> bool {
        true
    }

    open spec fn mul_req(self, rhs: I32x4) -> bool {
        true
    }

    /// Lane-wise product, keeping the low 32 bits.
    open spec fn mul_spec(self, rhs: I32x4) -> I32x4 {
        I32x4::lanes(
            vstd::wrapping::i32_specs::wrapping_mul(self.0[0], rhs.0[0]),
            vstd::wrapping::i32_specs::wrapping_mul(self.0[1], rhs.0[1]),
            vstd::wrapping::i32_specs::wrapping_mul(self.0[2], rhs.0[2]),
            vstd::wrapping::i32_specs::wrapping_mul(self.0[3], rhs.0[3]),
        )
    }
}

impl core::ops::BitAnd<I32x4> for I32x4 {
    type Output = I32x4;

    fn bitand(self, other: I32x4) -> (r: I32x4) {
        I32x4(
            [
                self.0[0] & other.0[0],
                self.0[1] & other.0[1],
                self.0[2] & other.0[2],
                self.0[3] & other.0[3],
            ],
        )
    }
}

impl vstd::std_specs::ops::BitAndSpecImpl<I32x4> for I32x4 {
    open spec fn obeys_bitand_spec() -> bool {
        true
    }

    open spec fn bitand_req(self, rhs: I32x4) -> bool {
        true
    }

    /// Lane-wise bitwise and.
    open spec fn bitand_spec(self, rhs: I32x4) -> I32x4 {
        I32x4::lanes(
            self.0[0] & rhs.0[0],
            self.0[1] & rhs.0[1],
            self.0[2] & rhs.0[2],
            self.0[3] & rhs.0[3],
        )
    }
}

impl core::ops::BitOr<I32x4> for I32x4 {
    type Output = I32x4;

    fn bitor(self, other: I32x4) -> (r: I32x4) {
        I32x4(
            [
                self.0[0] | other.0[0],
                self.0[1] | other.0[1],
                self.0[2] | other.0[2],
                self.0[3] | other.0[3],
            ],
        )
    }
}

impl vstd::std_specs::ops::BitOrSpecImpl<I32x4> for I32x4 {
    open spec fn obeys_bitor_spec() -> bool {
        true
    }

    open spec fn bitor_req(self, rhs: I32x4) -> bool {
        true
    }

    /// Lane-wise bitwise or.
    open spec fn bitor_spec(self, rhs: I32x4) -> I32x4 {
        I32x4::lanes(
            self.0[0] | rhs.0[0],
            self.0[1] | rhs.0[1],
            self.0[2] | rhs.0[2],
            self.0[3] | rhs.0[3],
        )
    }
}

/// Shifts one lane right logically by a count held in another lane.
fn shift_lane(a: i32, count: i32) -> (r: i32)
    ensures
        r == shr_lane(a, count),
{
    if (count as u32) < 32u32 {
        ((a as u32) >> (count as u32)) as i32
    } else {
        0i32
    }
}

impl core::ops::Shr<I32x4> for I32x4 {
    type Output = I32x4;

    fn shr(self, other: I32x4) -> (r: I32x4) {
        I32x4(
            [
                shift_lane(self.0[0], other.0[0]),
                shift_lane(self.0[1], other.0[1]),
                shift_lane(self.0[2], other.0[2]),
                shift_lane(self.0[3], other.0[3]),
            ],
        )
    }
}

impl vstd::std_specs::ops::ShrSpecImpl<I32x4> for I32x4 {
    open spec fn obeys_shr_spec() -> bool {
        true
    }

    open spec fn shr_req(self, rhs: I32x4) -> bool {
        true
    }

    /// Each lane shifted right logically by the count in the matching lane of `rhs`,
    /// read as unsigned; counts of 32 and above give zero.
    open spec fn shr_spec(self, rhs: I32x4) -> I32x4 {
        I32x4::lanes(
            shr_lane(self.0[0], rhs.0[0]),
            shr_lane(self.0[1], rhs.0[1]),
            shr_lane(self.0[2], rhs.0[2]),
            shr_lane(self.0[3], rhs.0[3]),
        )
    }
}

impl PartialEq for I32x4 {
    fn eq(&self, other: &I32x4) -> (r: bool) {
        let p = self.packed_eq(*other);
        let r = p.is_all_ones();
        proof {
            if r {
                assert forall|i: int| 0 <= i < 4 implies self@[i] == other@[i] by {
                    assert(p.0[i] == 0xffff_ffffu32);
                }
                assert(self@ =~= other@);
            } else {
                let i: int = choose|i: int| 0 <= i < 4 && p.0[i] != 0xffff_ffffu32;
                assert(self@[i] != other@[i]);
            }
        }
        r
    }
}

impl vstd::std_specs::cmp::PartialEqSpecImpl for I32x4 {
    open spec fn obeys_eq_spec() -> bool {
        true
    }

    open spec fn eq_spec(&self, other: &I32x4) -> bool {
        self@ == other@
    }
}

} // verus!

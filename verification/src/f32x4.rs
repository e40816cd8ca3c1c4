//! Four IEEE-754 binary32 lanes.
use vstd::prelude::*;

use crate::bits::{join, lemma_not_lane, mask};
use crate::f32x2::F32x2;
use crate::float::{
    float_eq, float_gt, float_lt, float_max, float_min, lane_abs, lane_eq, lane_gt, lane_max,
    lane_min, magnitude,
};
use crate::u32x4::U32x4;

verus! {

/// Four binary32 lanes held as their bit patterns, lane 0 first.
#[derive(Clone, Copy)]
pub struct F32x4(pub [u32; 4]);

impl View for F32x4 {
    type V = Seq<u32>;

    open spec fn view(&self) -> Seq<u32> {
        self.0@
    }
}

impl F32x4 {
    /// The vector with lanes `a`, `b`, `c`, `d`.
    pub open spec fn lanes(a: u32, b: u32, c: u32, d: u32) -> F32x4 {
        F32x4([a, b, c, d])
    }

    /// Lane-wise SSE minimum.
    pub open spec fn min_spec(self, other: F32x4) -> F32x4 {
        F32x4::lanes(
            float_min(self.0[0], other.0[0]),
            float_min(self.0[1], other.0[1]),
            float_min(self.0[2], other.0[2]),
            float_min(self.0[3], other.0[3]),
        )
    }

    /// Lane-wise SSE maximum.
    pub open spec fn max_spec(self, other: F32x4) -> F32x4 {
        F32x4::lanes(
            float_max(self.0[0], other.0[0]),
            float_max(self.0[1], other.0[1]),
            float_max(self.0[2], other.0[2]),
            float_max(self.0[3], other.0[3]),
        )
    }

    /// Lane-wise magnitude: every sign bit cleared.
    pub open spec fn abs_spec(self) -> F32x4 {
        F32x4::lanes(
            magnitude(self.0[0]),
            magnitude(self.0[1]),
            magnitude(self.0[2]),
            magnitude(self.0[3]),
        )
    }

    /// Lane-wise ordered equality mask.
    pub open spec fn packed_eq_spec(self, other: F32x4) -> U32x4 {
        U32x4::lanes(
            mask(float_eq(self.0[0], other.0[0])),
            mask(float_eq(self.0[1], other.0[1])),
            mask(float_eq(self.0[2], other.0[2])),
            mask(float_eq(self.0[3], other.0[3])),
        )
    }

    /// Lane-wise ordered greater-than mask.
    pub open spec fn packed_gt_spec(self, other: F32x4) -> U32x4 {
        U32x4::lanes(
            mask(float_gt(self.0[0], other.0[0])),
            mask(float_gt(self.0[1], other.0[1])),
            mask(float_gt(self.0[2], other.0[2])),
            mask(float_gt(self.0[3], other.0[3])),
        )
    }

    /// Lane-wise ordered less-than mask.
    pub open spec fn packed_lt_spec(self, other: F32x4) -> U32x4 {
        U32x4::lanes(
            mask(float_lt(self.0[0], other.0[0])),
            mask(float_lt(self.0[1], other.0[1])),
            mask(float_lt(self.0[2], other.0[2])),
            mask(float_lt(self.0[3], other.0[3])),
        )
    }

    /// Lane-wise complement of the greater-than mask: set where `self` is not greater,
    /// NaN lanes included.
    pub open spec fn packed_le_spec(self, other: F32x4) -> U32x4 {
        U32x4::lanes(
            mask(!float_gt(self.0[0], other.0[0])),
            mask(!float_gt(self.0[1], other.0[1])),
            mask(!float_gt(self.0[2], other.0[2])),
            mask(!float_gt(self.0[3], other.0[3])),
        )
    }

    /// Every lane of `self` equals the matching lane of `other` under ordered equality.
    pub open spec fn all_float_eq(self, other: F32x4) -> bool {
        forall|i: int| 0 <= i < 4 ==> float_eq(#[trigger] self.0[i], other.0[i])
    }

    /// Lane-wise SSE minimum: a lane of `self` where it is less than the lane of `other`,
    /// the lane of `other` otherwise.
    pub fn min(self, other: F32x4) -> (r: F32x4)
        ensures
            r == self.min_spec(other),
    {
        F32x4(
            [
                lane_min(self.0[0], other.0[0]),
                lane_min(self.0[1], other.0[1]),
                lane_min(self.0[2], other.0[2]),
                lane_min(self.0[3], other.0[3]),
            ],
        )
    }

    /// Lane-wise SSE maximum: a lane of `self` where it is greater than the lane of `other`,
    /// the lane of `other` otherwise.
    pub fn max(self, other: F32x4) -> (r: F32x4)
        ensures
            r == self.max_spec(other),
    {
        F32x4(
            [
                lane_max(self.0[0], other.0[0]),
                lane_max(self.0[1], other.0[1]),
                lane_max(self.0[2], other.0[2]),
                lane_max(self.0[3], other.0[3]),
            ],
        )
    }

    /// Raises each lane to at least `min`, then lowers it to at most `max`.
    pub fn clamp(self, min: F32x4, max: F32x4) -> (r: F32x4)
        ensures
            r == self.max_spec(min).min_spec(max),
    {
        self.max(min).min(max)
    }

    /// Lane-wise absolute value: the sign bit of every lane cleared.
    pub fn abs(self) -> (r: F32x4)
        ensures
            r == self.abs_spec(),
    {
        F32x4(
            [lane_abs(self.0[0]), lane_abs(self.0[1]), lane_abs(self.0[2]), lane_abs(self.0[3])],
        )
    }

    /// Lane-wise ordered equality: every bit set where the lanes are equal and neither is
    /// NaN, none elsewhere.
    pub fn packed_eq(self, other: F32x4) -> (r: U32x4)
        ensures
            r == self.packed_eq_spec(other),
    {
        U32x4(
            [
                if lane_eq(self.0[0], other.0[0]) { 0xffff_ffffu32 } else { 0u32 },
                if lane_eq(self.0[1], other.0[1]) { 0xffff_ffffu32 } else { 0u32 },
                if lane_eq(self.0[2], other.0[2]) { 0xffff_ffffu32 } else { 0u32 },
                if lane_eq(self.0[3], other.0[3]) { 0xffff_ffffu32 } else { 0u32 },
            ],
        )
    }

    /// Lane-wise ordered greater-than: every bit set where `self` is greater and neither
    /// lane is NaN, none elsewhere.
    pub fn packed_gt(self, other: F32x4) -> (r: U32x4)
        ensures
            r == self.packed_gt_spec(other),
    {
        U32x4(
            [
                if lane_gt(self.0[0], other.0[0]) { 0xffff_ffffu32 } else { 0u32 },
                if lane_gt(self.0[1], other.0[1]) { 0xffff_ffffu32 } else { 0u32 },
                if lane_gt(self.0[2], other.0[2]) { 0xffff_ffffu32 } else { 0u32 },
                if lane_gt(self.0[3], other.0[3]) { 0xffff_ffffu32 } else { 0u32 },
            ],
        )
    }

    /// Lane-wise ordered less-than: `other` compared greater than `self`.
    pub fn packed_lt(self, other: F32x4) -> (r: U32x4)
        ensures
            r == self.packed_lt_spec(other),
    {
        other.packed_gt(self)
    }

    /// Lane-wise complement of `packed_gt`.
    pub fn packed_le(self, other: F32x4) -> (r: U32x4)
        ensures
            r == self.packed_le_spec(other),
    {
        let gt = self.packed_gt(other);
        proof {
            lemma_not_lane(0, float_gt(self.0[0], other.0[0]));
            lemma_not_lane(0, float_gt(self.0[1], other.0[1]));
            lemma_not_lane(0, float_gt(self.0[2], other.0[2]));
            lemma_not_lane(0, float_gt(self.0[3], other.0[3]));
        }
        core::ops::Not::not(gt)
    }

    /// Lanes 0 and 1.
    pub fn xy(self) -> (r: F32x2)
        ensures
            r == F32x2::lanes(self.0[0], self.0[1]),
    {
        F32x2(join(self.0[0], self.0[1]))
    }

    /// Lanes 0 and 3.
    pub fn xw(self) -> (r: F32x2)
        ensures
            r == F32x2::lanes(self.0[0], self.0[3]),
    {
        F32x2(join(self.0[0], self.0[3]))
    }

    /// Lanes 1 and 0.
    pub fn yx(self) -> (r: F32x2)
        ensures
            r == F32x2::lanes(self.0[1], self.0[0]),
    {
        F32x2(join(self.0[1], self.0[0]))
    }

    /// Lanes 2 and 1.
    pub fn zy(self) -> (r: F32x2)
        ensures
            r == F32x2::lanes(self.0[2], self.0[1]),
    {
        F32x2(join(self.0[2], self.0[1]))
    }

    /// Lanes 2 and 3.
    pub fn zw(self) -> (r: F32x2)
        ensures
            r == F32x2::lanes(self.0[2], self.0[3]),
    {
        F32x2(join(self.0[2], self.0[3]))
    }

    /// Lanes 0 and 1 of `self` followed by lanes 0 and 1 of `other`.
    pub fn concat_xy_xy(self, other: F32x4) -> (r: F32x4)
        ensures
            r == F32x4::lanes(self.0[0], self.0[1], other.0[0], other.0[1]),
    {
        F32x4([self.0[0], self.0[1], other.0[0], other.0[1]])
    }

    /// Lanes 0 and 1 of `self` followed by lanes 2 and 3 of `other`.
    pub fn concat_xy_zw(self, other: F32x4) -> (r: F32x4)
        ensures
            r == F32x4::lanes(self.0[0], self.0[1], other.0[2], other.0[3]),
    {
        F32x4([self.0[0], self.0[1], other.0[2], other.0[3]])
    }

    /// Lanes 2 and 3 of `self` followed by lanes 2 and 3 of `other`.
    pub fn concat_zw_zw(self, other: F32x4) -> (r: F32x4)
        ensures
            r == F32x4::lanes(self.0[2], self.0[3], other.0[2], other.0[3]),
    {
        F32x4([self.0[2], self.0[3], other.0[2], other.0[3]])
    }

    /// Lanes 3 and 2 of `self` followed by lanes 1 and 0 of `other`.
    pub fn concat_wz_yx(self, other: F32x4) -> (r: F32x4)
        ensures
            r == F32x4::lanes(self.0[3], self.0[2], other.0[1], other.0[0]),
    {
        F32x4([self.0[3], self.0[2], other.0[1], other.0[0]])
    }
}

impl Default for F32x4 {
    /// Four positive zeroes.
    fn default() -> (r: F32x4)
        ensures
            r == F32x4::lanes(0, 0, 0, 0),
    {
        F32x4([0, 0, 0, 0])
    }
}

impl PartialEq for F32x4 {
    fn eq(&self, other: &F32x4) -> (r: bool) {
        let p = self.packed_eq(*other);
        let r = p.is_all_ones();
        proof {
            if r {
                assert forall|i: int| 0 <= i < 4 implies float_eq(self.0[i], other.0[i]) by {
                    assert(p.0[i] == 0xffff_ffffu32);
                }
            } else {
                let i: int = choose|i: int| 0 <= i < 4 && p.0[i] != 0xffff_ffffu32;
                assert(!float_eq(self.0[i], other.0[i]));
            }
        }
        r
    }
}

impl vstd::std_specs::cmp::PartialEqSpecImpl for F32x4 {
    open spec fn obeys_eq_spec() -> bool {
        true
    }

    /// Ordered equality in every lane: a NaN lane makes vectors unequal, and the two
    /// zeroes are equal.
    open spec fn eq_spec(&self, other: &F32x4) -> bool {
        self.all_float_eq(*other)
    }
}

} // verus!

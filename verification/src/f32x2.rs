//! Two IEEE-754 binary32 lanes.
use vstd::prelude::*;

use crate::bits::{
    hi_of, join_bits, lemma_join_then_split, lemma_pair_constants,
    lemma_split_then_join, lo_of, mask, pair_lanes,
};
use crate::f32x4::F32x4;
use crate::float::{float_eq, float_gt, float_lt, float_max, float_min, magnitude};
use crate::u32x2::U32x2;

verus! {

/// Two binary32 lanes held as their bit patterns, packed into a `u64` with lane 0 in the
/// low half.
#[derive(Clone, Copy)]
pub struct F32x2(pub u64);

impl View for F32x2 {
    type V = Seq<u32>;

    open spec fn view(&self) -> Seq<u32> {
        pair_lanes(self.0)
    }
}

impl F32x2 {
    /// The vector with lanes `x` and `y`.
    pub open spec fn lanes(x: u32, y: u32) -> F32x2 {
        F32x2(join_bits(x, y))
    }

    /// The lanes of `F32x2::lanes(x, y)` are `x` and `y`.
    pub proof fn lemma_lanes_view(x: u32, y: u32)
        ensures
            F32x2::lanes(x, y)@ == seq![x, y],
            F32x2::lanes(x, y)@[0] == x,
            F32x2::lanes(x, y)@[1] == y,
    {
        lemma_join_then_split(x, y);
        assert(F32x2::lanes(x, y)@ =~= seq![x, y]);
    }

    /// A vector is determined by its lanes.
    pub proof fn lemma_view_determines(v: F32x2)
        ensures
            v == F32x2::lanes(v@[0], v@[1]),
    {
        lemma_split_then_join(v.0);
    }

    /// This vector in the low half of a four-lane vector whose upper lanes are positive
    /// zeroes.
    pub fn to_f32x4(self) -> (r: F32x4)
        ensures
            r == F32x4::lanes(self@[0], self@[1], 0, 0),
    {
        F32x4([lo_of(self.0), hi_of(self.0), 0, 0])
    }

    /// Lane-wise SSE minimum.
    pub fn min(self, other: F32x2) -> (r: F32x2)
        ensures
            r == F32x2::lanes(float_min(self@[0], other@[0]), float_min(self@[1], other@[1])),
    {
        self.to_f32x4().min(other.to_f32x4()).xy()
    }

    /// Lane-wise SSE maximum.
    pub fn max(self, other: F32x2) -> (r: F32x2)
        ensures
            r == F32x2::lanes(float_max(self@[0], other@[0]), float_max(self@[1], other@[1])),
    {
        self.to_f32x4().max(other.to_f32x4()).xy()
    }

    /// Raises each lane to at least `min`, then lowers it to at most `max`.
    pub fn clamp(self, min: F32x2, max: F32x2) -> (r: F32x2)
        ensures
            r == F32x2::lanes(
                float_min(float_max(self@[0], min@[0]), max@[0]),
                float_min(float_max(self@[1], min@[1]), max@[1]),
            ),
    {
        self.to_f32x4().clamp(min.to_f32x4(), max.to_f32x4()).xy()
    }

    /// Lane-wise absolute value: the sign bit of both lanes cleared.
    pub fn abs(self) -> (r: F32x2)
        ensures
            r == F32x2::lanes(magnitude(self@[0]), magnitude(self@[1])),
    {
        self.to_f32x4().abs().xy()
    }

    /// Lane-wise ordered equality.
    pub fn packed_eq(self, other: F32x2) -> (r: U32x2)
        ensures
            r == U32x2::lanes(
                mask(float_eq(self@[0], other@[0])),
                mask(float_eq(self@[1], other@[1])),
            ),
    {
        self.to_f32x4().packed_eq(other.to_f32x4()).xy()
    }

    /// Lane-wise ordered greater-than.
    pub fn packed_gt(self, other: F32x2) -> (r: U32x2)
        ensures
            r == U32x2::lanes(
                mask(float_gt(self@[0], other@[0])),
                mask(float_gt(self@[1], other@[1])),
            ),
    {
        self.to_f32x4().packed_gt(other.to_f32x4()).xy()
    }

    /// Lane-wise ordered less-than.
    pub fn packed_lt(self, other: F32x2) -> (r: U32x2)
        ensures
            r == U32x2::lanes(
                mask(float_lt(self@[0], other@[0])),
                mask(float_lt(self@[1], other@[1])),
            ),
    {
        self.to_f32x4().packed_lt(other.to_f32x4()).xy()
    }

    /// Lane-wise complement of `packed_gt`.
    pub fn packed_le(self, other: F32x2) -> (r: U32x2)
        ensures
            r == U32x2::lanes(
                mask(!float_gt(self@[0], other@[0])),
                mask(!float_gt(self@[1], other@[1])),
            ),
    {
        self.to_f32x4().packed_le(other.to_f32x4()).xy()
    }

    /// The two lanes swapped.
    pub fn yx(self) -> (r: F32x2)
        ensures
            r == F32x2::lanes(self@[1], self@[0]),
    {
        self.to_f32x4().yx()
    }

    /// The four-lane vector holding the lanes of `self` then those of `other`.
    pub fn concat_xy_xy(self, other: F32x2) -> (r: F32x4)
        ensures
            r == F32x4::lanes(self@[0], self@[1], other@[0], other@[1]),
    {
        self.to_f32x4().concat_xy_xy(other.to_f32x4())
    }
}

impl Default for F32x2 {
    /// Two positive zeroes.
    fn default() -> (r: F32x2)
        ensures
            r == F32x2::lanes(0, 0),
            r@ == seq![0u32, 0u32],
    {
        proof {
            lemma_pair_constants();
            F32x2::lemma_lanes_view(0, 0);
            lemma_split_then_join(0u64);
        }
        F32x2(0)
    }
}

impl PartialEq for F32x2 {
    fn eq(&self, other: &F32x2) -> (r: bool) {
        let p = self.packed_eq(*other);
        proof {
            U32x2::lemma_lanes_view(
                mask(float_eq(self@[0], other@[0])),
                mask(float_eq(self@[1], other@[1])),
            );
        }
        p.is_all_ones()
    }
}

impl vstd::std_specs::cmp::PartialEqSpecImpl for F32x2 {
    open spec fn obeys_eq_spec() -> bool {
        true
    }

    /// Ordered equality in both lanes.
    open spec fn eq_spec(&self, other: &F32x2) -> bool {
        float_eq(self@[0], other@[0]) && float_eq(self@[1], other@[1])
    }
}

} // verus!

//! Two 32-bit signed lanes.
use vstd::prelude::*;

use crate::bits::{
    hi_bits, hi_of, join, join_bits, lemma_join_then_split, lemma_split_then_join,
    lemma_u32_i32_roundtrip, lo_bits, lo_of, mask,
};
use crate::i32x4::I32x4;
use crate::u32x4::U32x4;

verus! {

/// Two 32-bit signed lanes packed into a `u64`, lane 0 in the low half, each lane in
/// two's complement.
#[derive(Clone, Copy)]
pub struct I32x2(pub u64);

impl View for I32x2 {
    type V = Seq<i32>;

    open spec fn view(&self) -> Seq<i32> {
        seq![lo_bits(self.0) as i32, hi_bits(self.0) as i32]
    }
}

impl I32x2 {
    /// The vector with lanes `x` and `y`.
    pub open spec fn lanes(x: i32, y: i32) -> I32x2 {
        I32x2(join_bits(x as u32, y as u32))
    }

    /// The lanes of `I32x2::lanes(x, y)` are `x` and `y`.
    pub proof fn lemma_lanes_view(x: i32, y: i32)
        ensures
            I32x2::lanes(x, y)@ == seq![x, y],
            I32x2::lanes(x, y)@[0] == x,
            I32x2::lanes(x, y)@[1] == y,
    {
        lemma_join_then_split(x as u32, y as u32);
        lemma_u32_i32_roundtrip(0, x);
        lemma_u32_i32_roundtrip(0, y);
        assert(I32x2::lanes(x, y)@ =~= seq![x, y]);
    }

    /// A vector is determined by its lanes.
    pub proof fn lemma_view_determines(v: I32x2)
        ensures
            v == I32x2::lanes(v@[0], v@[1]),
    {
        lemma_split_then_join(v.0);
        lemma_u32_i32_roundtrip(lo_bits(v.0), 0);
        lemma_u32_i32_roundtrip(hi_bits(v.0), 0);
    }

    /// Builds a vector from its two lanes.
    pub fn new(a: i32, b: i32) -> (r: I32x2)
        ensures
            r == I32x2::lanes(a, b),
            r@ == seq![a, b],
    {
        proof {
            I32x2::lemma_lanes_view(a, b);
        }
        I32x2(join(a as u32, b as u32))
    }

    /// The vector with `x` in both lanes.
    pub fn splat(x: i32) -> (r: I32x2)
        ensures
            r == I32x2::lanes(x, x),
            r@ == seq![x, x],
    {
        I32x2::new(x, x)
    }

    /// This vector in the low half of a four-lane vector whose upper lanes are zero.
    pub fn to_i32x4(self) -> (r: I32x4)
        ensures
            r == I32x4::lanes(self@[0], self@[1], 0, 0),
    {
        I32x4([lo_of(self.0) as i32, hi_of(self.0) as i32, 0, 0])
    }

    /// The four-lane vector holding the lanes of `self` then those of `other`.
    pub fn concat_xy_xy(self, other: I32x2) -> (r: I32x4)
        ensures
            r == I32x4::lanes(self@[0], self@[1], other@[0], other@[1]),
    {
        self.to_i32x4().concat_xy_xy(other.to_i32x4())
    }

    /// Lane-wise minimum.
    pub fn min(self, other: I32x2) -> (r: I32x2)
        ensures
            r == I32x2::lanes(
                crate::i32x4::min_lane(self@[0], other@[0]),
                crate::i32x4::min_lane(self@[1], other@[1]),
            ),
    {
        self.to_i32x4().min(other.to_i32x4()).xy()
    }

    /// Lane-wise equality over the widened vectors: the two upper lanes, both zero on
    /// each side, always compare equal.
    pub fn packed_eq(self, other: I32x2) -> (r: U32x4)
        ensures
            r == U32x4::lanes(
                mask(self@[0] == other@[0]),
                mask(self@[1] == other@[1]),
                0xffff_ffffu32,
                0xffff_ffffu32,
            ),
    {
        self.to_i32x4().packed_eq(other.to_i32x4())
    }

    /// Lane-wise signed greater-than over the widened vectors: the two upper lanes never
    /// compare greater.
    pub fn packed_gt(self, other: I32x2) -> (r: U32x4)
        ensures
            r == U32x4::lanes(mask(self@[0] > other@[0]), mask(self@[1] > other@[1]), 0u32, 0u32),
    {
        self.to_i32x4().packed_gt(other.to_i32x4())
    }

    /// Lane-wise signed less-or-equal over the widened vectors: the two upper lanes always
    /// compare less-or-equal.
    pub fn packed_le(self, other: I32x2) -> (r: U32x4)
        ensures
            r == U32x4::lanes(
                mask(self@[0] <= other@[0]),
                mask(self@[1] <= other@[1]),
                0xffff_ffffu32,
                0xffff_ffffu32,
            ),
    {
        self.to_i32x4().packed_le(other.to_i32x4())
    }

    /// The lane at `index`.
    pub fn index(&self, index: usize) -> (r: i32)
        requires
            index < 2,
        ensures
            r == self@[index as int],
    {
        if index == 0 {
            lo_of(self.0) as i32
        } else {
            hi_of(self.0) as i32
        }
    }

    /// Replaces the lane at `index` with `value`.
    pub fn set(&mut self, index: usize, value: i32)
        requires
            index < 2,
        ensures
            final(self)@ == old(self)@.update(index as int, value),
    {
        let ghost before = self@;
        let lo: u32 = lo_of(self.0);
        let hi: u32 = hi_of(self.0);
        proof {
            lemma_u32_i32_roundtrip(0, value);
        }
        if index == 0 {
            self.0 = join(value as u32, hi);
        } else {
            self.0 = join(lo, value as u32);
        }
        assert(self@ =~= before.update(index as int, value));
    }
}

impl Default for I32x2 {
    fn default() -> (r: I32x2)
        ensures
            r == I32x2::lanes(0, 0),
            r@ == seq![0i32, 0i32],
    {
        proof {
            I32x2::lemma_lanes_view(0, 0);
            lemma_split_then_join(0u64);
            crate::bits::lemma_pair_constants();
        }
        I32x2(0)
    }
}

impl core::ops::Add<I32x2> for I32x2 {
    type Output = I32x2;

    fn add(self, other: I32x2) -> (r: I32x2) {
        (self.to_i32x4() + other.to_i32x4()).xy()
    }
}

impl vstd::std_specs::ops::AddSpecImpl<I32x2> for I32x2 {
    open spec fn obeys_add_spec() -> bool {
        true
    }

    open spec fn add_req(self, rhs: I32x2) -> bool {
        true
    }

    open spec fn add_spec(self, rhs: I32x2) -> I32x2 {
        I32x2::lanes(
            vstd::wrapping::i32_specs::wrapping_add(self@[0], rhs@[0]),
            vstd::wrapping::i32_specs::wrapping_add(self@[1], rhs@[1]),
        )
    }
}

impl core::ops::Sub<I32x2> for I32x2 {
    type Output = I32x2;

    fn sub(self, other: I32x2) -> (r: I32x2) {
        (self.to_i32x4() - other.to_i32x4()).xy()
    }
}

impl vstd::std_specs::ops::SubSpecImpl<I32x2> for I32x2 {
    open spec fn obeys_sub_spec() -> bool {
        true
    }

    open spec fn sub_req(self, rhs: I32x2) -> bool {
        true
    }

    open spec fn sub_spec(self, rhs: I32x2) -> I32x2 {
        I32x2::lanes(
            vstd::wrapping::i32_specs::wrapping_sub(self@[0], rhs@[0]),
            vstd::wrapping::i32_specs::wrapping_sub(self@[1], rhs@[1]),
        )
    }
}

impl core::ops::Mul<I32x2> for I32x2 {
    type Output = I32x2;

    fn mul(self, other: I32x2) -> (r: I32x2) {
        (self.to_i32x4() * other.to_i32x4()).xy()
    }
}

impl vstd::std_specs::ops::MulSpecImpl<I32x2> for I32x2 {
    open spec fn obeys_mul_spec() -> bool {
        true
    }

    open spec fn mul_req(self, rhs: I32x2) -> bool {
        true
    }

    open spec fn mul_spec(self, rhs: I32x2) -> I32x2 {
        I32x2::lanes(
            vstd::wrapping::i32_specs::wrapping_mul(self@[0], rhs@[0]),
            vstd::wrapping::i32_specs::wrapping_mul(self@[1], rhs@[1]),
        )
    }
}

impl PartialEq for I32x2 {
    fn eq(&self, other: &I32x2) -> (r: bool) {
        let p = self.packed_eq(*other);
        let r = p.is_all_ones();
        proof {
            if r {
                assert(p.0[0] == 0xffff_ffffu32 && p.0[1] == 0xffff_ffffu32);
                assert(self@ =~= other@);
            } else {
                let i: int = choose|i: int| 0 <= i < 4 && p.0[i] != 0xffff_ffffu32;
                assert(self@[i] != other@[i]);
            }
        }
        r
    }
}

impl vstd::std_specs::cmp::PartialEqSpecImpl for I32x2 {
    open spec fn obeys_eq_spec() -> bool {
        true
    }

    open spec fn eq_spec(&self, other: &I32x2) -> bool {
        self@ == other@
    }
}

} // verus!

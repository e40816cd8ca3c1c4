//! Four 32-bit unsigned lanes.
use vstd::prelude::*;

use crate::bits::{join, lemma_not_lane, mask};
use crate::u32x2::U32x2;

verus! {

/// Four 32-bit unsigned lanes, lane 0 first.
#[derive(Clone, Copy)]
pub struct U32x4(pub [u32; 4]);

impl View for U32x4 {
    type V = Seq<u32>;

    open spec fn view(&self) -> Seq<u32> {
        self.0@
    }
}

impl U32x4 {
    /// The vector with lanes `a`, `b`, `c`, `d`.
    pub open spec fn lanes(a: u32, b: u32, c: u32, d: u32) -> U32x4 {
        U32x4([a, b, c, d])
    }

    /// Lane-wise bitwise exclusive or.
    pub open spec fn xor_spec(self, other: U32x4) -> U32x4 {
        U32x4::lanes(
            self.0[0] ^ other.0[0],
            self.0[1] ^ other.0[1],
            self.0[2] ^ other.0[2],
            self.0[3] ^ other.0[3],
        )
    }

    /// Lane-wise bitwise complement.
    pub open spec fn not_spec(self) -> U32x4 {
        U32x4::lanes(!self.0[0], !self.0[1], !self.0[2], !self.0[3])
    }

    /// Lane-wise equality mask.
    pub open spec fn packed_eq_spec(self, other: U32x4) -> U32x4 {
        U32x4::lanes(
            mask(self.0[0] == other.0[0]),
            mask(self.0[1] == other.0[1]),
            mask(self.0[2] == other.0[2]),
            mask(self.0[3] == other.0[3]),
        )
    }

    /// Every bit of every lane is set.
    pub open spec fn all_ones(self) -> bool {
        forall|i: int| 0 <= i < 4 ==> #[trigger] self.0[i] == 0xffff_ffffu32
    }

    /// No bit of any lane is set.
    pub open spec fn all_zeroes(self) -> bool {
        forall|i: int| 0 <= i < 4 ==> #[trigger] self.0[i] == 0u32
    }

    /// Builds a vector from its four lanes.
    pub fn new(a: u32, b: u32, c: u32, d: u32) -> (r: U32x4)
        ensures
            r == U32x4::lanes(a, b, c, d),
            r@ == seq![a, b, c, d],
    {
        let r = U32x4([a, b, c, d]);
        assert(r@ =~= seq![a, b, c, d]);
        r
    }

    /// The vector with `x` in every lane.
    pub fn splat(x: u32) -> (r: U32x4)
        ensures
            r == U32x4::lanes(x, x, x, x),
    {
        U32x4([x, x, x, x])
    }

    /// True when every bit of every lane is set.
    pub fn is_all_ones(self) -> (r: bool)
        ensures
            r == self.all_ones(),
    {
        self.0[0] == 0xffff_ffffu32 && self.0[1] == 0xffff_ffffu32 && self.0[2] == 0xffff_ffffu32
            && self.0[3] == 0xffff_ffffu32
    }

    /// True when no bit of any lane is set.
    pub fn is_all_zeroes(self) -> (r: bool)
        ensures
            r == self.all_zeroes(),
    {
        self.0[0] == 0u32 && self.0[1] == 0u32 && self.0[2] == 0u32 && self.0[3] == 0u32
    }

    /// The first two lanes.
    pub fn xy(self) -> (r: U32x2)
        ensures
            r == U32x2::lanes(self.0[0], self.0[1]),
            r@ == seq![self.0[0], self.0[1]],
    {
        proof {
            U32x2::lemma_lanes_view(self.0[0], self.0[1]);
        }
        U32x2(join(self.0[0], self.0[1]))
    }

    /// Lane-wise equality: a lane of the result has every bit set where the lanes are equal
    /// and none where they differ.
    pub fn packed_eq(self, other: U32x4) -> (r: U32x4)
        ensures
            r == self.packed_eq_spec(other),
    {
        U32x4(
            [
                if self.0[0] == other.0[0] { 0xffff_ffffu32 } else { 0u32 },
                if self.0[1] == other.0[1] { 0xffff_ffffu32 } else { 0u32 },
                if self.0[2] == other.0[2] { 0xffff_ffffu32 } else { 0u32 },
                if self.0[3] == other.0[3] { 0xffff_ffffu32 } else { 0u32 },
            ],
        )
    }

    /// The lane at `index`.
    pub fn index(&self, index: usize) -> (r: u32)
        requires
            index < 4,
        ensures
            r == self@[index as int],
    {
        self.0[index]
    }
}

impl core::ops::BitXor<U32x4> for U32x4 {
    type Output = U32x4;

    fn bitxor(self, other: U32x4) -> (r: U32x4) {
        U32x4(
            [
                self.0[0] ^ other.0[0],
                self.0[1] ^ other.0[1],
                self.0[2] ^ other.0[2],
                self.0[3] ^ other.0[3],
            ],
        )
    }
}

impl vstd::std_specs::ops::BitXorSpecImpl<U32x4> for U32x4 {
    open spec fn obeys_bitxor_spec() -> bool {
        true
    }

    open spec fn bitxor_req(self, rhs: U32x4) -> bool {
        true
    }

    open spec fn bitxor_spec(self, rhs: U32x4) -> U32x4 {
        self.xor_spec(rhs)
    }
}

impl core::ops::Not for U32x4 {
    type Output = U32x4;

    fn not(self) -> (r: U32x4) {
        let r = self ^ U32x4::splat(!0u32);
        proof {
            lemma_not_lane(self.0[0], true);
            lemma_not_lane(self.0[1], true);
            lemma_not_lane(self.0[2], true);
            lemma_not_lane(self.0[3], true);
        }
        r
    }
}

impl vstd::std_specs::ops::NotSpecImpl for U32x4 {
    open spec fn obeys_not_spec() -> bool {
        true
    }

    open spec fn not_req(self) -> bool {
        true
    }

    open spec fn not_spec(self) -> U32x4 {
        U32x4::not_spec(self)
    }
}

impl PartialEq for U32x4 {
    fn eq(&self, other: &U32x4) -> (r: bool) {
        let p = self.packed_eq(*other);
        let r = p.is_all_ones();
        proof {
            if r {
                assert forall|i: int| 0 <= i < 4 implies self@[i] == other@[i] by {
                    assert(p.0[i] == 0xffff_ffffu32);
                }
                assert(self@ =~= other@);
            } else {
                let i: int = choose|i: int| 0 <= i < 4 && p.0[i] != 0xffff_ffffu32;
                assert(self@[i] != other@[i]);
            }
        }
        r
    }
}

impl vstd::std_specs::cmp::PartialEqSpecImpl for U32x4 {
    open spec fn obeys_eq_spec() -> bool {
        true
    }

    open spec fn eq_spec(&self, other: &U32x4) -> bool {
        self@ == other@
    }
}

} // verus!

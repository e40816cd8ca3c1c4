//! Two 32-bit unsigned lanes.
use vstd::prelude::*;

use crate::bits::{join_bits, lemma_join_then_split, lemma_pair_constants, lemma_pair_eq, pair_lanes};

verus! {

/// Two 32-bit unsigned lanes packed into a `u64`, lane 0 in the low half.
#[derive(Clone, Copy)]
pub struct U32x2(pub u64);

impl View for U32x2 {
    type V = Seq<u32>;

    open spec fn view(&self) -> Seq<u32> {
        pair_lanes(self.0)
    }
}

impl U32x2 {
    /// The vector with lanes `x` and `y`.
    pub open spec fn lanes(x: u32, y: u32) -> U32x2 {
        U32x2(join_bits(x, y))
    }

    /// The lanes of `U32x2::lanes(x, y)` are `x` and `y`.
    pub proof fn lemma_lanes_view(x: u32, y: u32)
        ensures
            U32x2::lanes(x, y)@ == seq![x, y],
            U32x2::lanes(x, y)@[0] == x,
            U32x2::lanes(x, y)@[1] == y,
    {
        lemma_join_then_split(x, y);
        assert(U32x2::lanes(x, y)@ =~= seq![x, y]);
    }

    /// True when every bit of both lanes is set.
    pub fn is_all_ones(self) -> (r: bool)
        ensures
            r == (self.0 == 0xffff_ffff_ffff_ffffu64),
            r == (self@[0] == 0xffff_ffffu32 && self@[1] == 0xffff_ffffu32),
    {
        proof {
            lemma_pair_eq(self.0, 0xffff_ffff_ffff_ffffu64);
            lemma_pair_constants();
        }
        self.0 == !0u64
    }

    /// True when no bit of either lane is set.
    pub fn is_all_zeroes(self) -> (r: bool)
        ensures
            r == (self.0 == 0u64),
            r == (self@[0] == 0u32 && self@[1] == 0u32),
    {
        proof {
            lemma_pair_eq(self.0, 0u64);
            lemma_pair_constants();
        }
        self.0 == 0
    }
}

} // verus!

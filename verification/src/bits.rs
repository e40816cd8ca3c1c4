//! Packing two 32-bit lanes into a `u64` and reading them back.
use vstd::prelude::*;

verus! {

/// The low lane of a packed pair.
pub open spec fn lo_bits(b: u64) -> u32 {
    b as u32
}

/// The high lane of a packed pair.
pub open spec fn hi_bits(b: u64) -> u32 {
    (b >> 32u64) as u32
}

/// The pair with `lo` in the low half and `hi` in the high half.
pub open spec fn join_bits(lo: u32, hi: u32) -> u64 {
    (lo as u64) | ((hi as u64) << 32u64)
}

/// The lanes of a packed pair, low lane first.
pub open spec fn pair_lanes(b: u64) -> Seq<u32> {
    seq![lo_bits(b), hi_bits(b)]
}

/// Reading the lanes of a joined pair gives back the lanes that were joined.
pub proof fn lemma_join_then_split(lo: u32, hi: u32)
    ensures
        lo_bits(join_bits(lo, hi)) == lo,
        hi_bits(join_bits(lo, hi)) == hi,
{
    assert(((lo as u64) | ((hi as u64) << 32u64)) as u32 == lo
        && (((lo as u64) | ((hi as u64) << 32u64)) >> 32u64) as u32 == hi) by (bit_vector);
}

/// Joining the lanes of a pair gives back the pair.
pub proof fn lemma_split_then_join(b: u64)
    ensures
        join_bits(lo_bits(b), hi_bits(b)) == b,
{
    assert(((b as u32) as u64) | ((((b >> 32u64) as u32) as u64) << 32u64) == b) by (bit_vector);
}

/// Two pairs are equal exactly when their lanes are.
pub proof fn lemma_pair_eq(a: u64, b: u64)
    ensures
        (a == b) == (pair_lanes(a) == pair_lanes(b)),
{
    lemma_split_then_join(a);
    lemma_split_then_join(b);
    if pair_lanes(a) == pair_lanes(b) {
        assert(pair_lanes(a)[0] == pair_lanes(b)[0]);
        assert(pair_lanes(a)[1] == pair_lanes(b)[1]);
    }
}

/// The lanes of the all-ones and all-zeroes pairs.
pub proof fn lemma_pair_constants()
    ensures
        lo_bits(0xffff_ffff_ffff_ffffu64) == 0xffff_ffffu32,
        hi_bits(0xffff_ffff_ffff_ffffu64) == 0xffff_ffffu32,
        lo_bits(0u64) == 0u32,
        hi_bits(0u64) == 0u32,
        !0u64 == 0xffff_ffff_ffff_ffffu64,
{
    assert((0xffff_ffff_ffff_ffffu64 as u32) == 0xffff_ffffu32
        && ((0xffff_ffff_ffff_ffffu64 >> 32u64) as u32) == 0xffff_ffffu32
        && (0u64 as u32) == 0u32 && ((0u64 >> 32u64) as u32) == 0u32
        && !0u64 == 0xffff_ffff_ffff_ffffu64) by (bit_vector);
}

/// A lane of a comparison result: every bit set for true, none for false.
pub open spec fn mask(b: bool) -> u32 {
    if b {
        0xffff_ffffu32
    } else {
        0u32
    }
}

/// Complementing a lane flips every bit; on comparison masks it negates the comparison.
pub proof fn lemma_not_lane(x: u32, b: bool)
    ensures
        x ^ !0u32 == !x,
        !mask(b) == mask(!b),
{
    assert(x ^ !0u32 == !x && !0xffff_ffffu32 == 0u32 && !0u32 == 0xffff_ffffu32) by (bit_vector);
}

/// Reinterpreting a lane as signed and back changes nothing.
pub proof fn lemma_u32_i32_roundtrip(u: u32, i: i32)
    ensures
        ((u as i32) as u32) == u,
        ((i as u32) as i32) == i,
{
    assert(((u as i32) as u32) == u) by (bit_vector);
    assert(((i as u32) as i32) == i) by (bit_vector);
}

/// Reads the low lane of a packed pair.
pub fn lo_of(b: u64) -> (r: u32)
    ensures
        r == lo_bits(b),
{
    b as u32
}

/// Reads the high lane of a packed pair.
pub fn hi_of(b: u64) -> (r: u32)
    ensures
        r == hi_bits(b),
{
    (b >> 32u64) as u32
}

/// Packs two lanes into a pair.
pub fn join(lo: u32, hi: u32) -> (r: u64)
    ensures
        r == join_bits(lo, hi),
        lo_bits(r) == lo,
        hi_bits(r) == hi,
{
    proof {
        lemma_join_then_split(lo, hi);
    }
    (lo as u64) | ((hi as u64) << 32u64)
}

} // verus!

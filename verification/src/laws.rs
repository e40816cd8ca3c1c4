//! Properties that hold across the operations of the library.
use vstd::prelude::*;

use crate::bits::{lemma_not_lane, mask};
use crate::f32x2::F32x2;
use crate::f32x4::F32x4;
use crate::float::{
    float_eq, float_gt, float_lt, float_max, float_min, is_nan, magnitude, order_key,
};
use crate::i32x2::I32x2;
use crate::i32x4::{min_lane, shr_lane, I32x4};
use crate::u32x4::U32x4;
use vstd::arithmetic::div_mod::{lemma_fundamental_div_mod, lemma_mod_multiples_basic};
use vstd::arithmetic::power2::pow2;
use vstd::bits::lemma_u32_shr_is_div;
use vstd::std_specs::cmp::PartialEqSpec;
use vstd::std_specs::ops::{AddSpec, BitAndSpec, BitOrSpec, MulSpec, ShrSpec, SubSpec};

verus! {

/// Widening a two-lane integer vector with `to_i32x4` and narrowing it back with `xy`
/// gives the vector back.
pub proof fn law_i32x2_widen_then_narrow(v: I32x2)
    ensures
        ({
            let w = I32x4::lanes(v@[0], v@[1], 0, 0);
            I32x2::lanes(w.0[0], w.0[1]) == v
        }),
{
    I32x2::lemma_view_determines(v);
}

/// Widening a two-lane float vector with `to_f32x4` and narrowing it back with `xy`
/// gives the vector back.
pub proof fn law_f32x2_widen_then_narrow(v: F32x2)
    ensures
        ({
            let w = F32x4::lanes(v@[0], v@[1], 0, 0);
            F32x2::lanes(w.0[0], w.0[1]) == v
        }),
{
    F32x2::lemma_view_determines(v);
}

/// The halves of `I32x2::concat_xy_xy(a, b)`, read back with `xy` and `zw`, are `a` and `b`.
pub proof fn law_i32x2_concat_then_split(a: I32x2, b: I32x2)
    ensures
        ({
            let c = I32x4::lanes(a@[0], a@[1], b@[0], b@[1]);
            I32x2::lanes(c.0[0], c.0[1]) == a && I32x2::lanes(c.0[2], c.0[3]) == b
        }),
{
    I32x2::lemma_view_determines(a);
    I32x2::lemma_view_determines(b);
}

/// Two-lane integer vectors have equal lanes exactly when their bit patterns are equal.
pub proof fn law_i32x2_lanes_equal_iff_bits_equal(a: I32x2, b: I32x2)
    ensures
        (a@ == b@) == (a.0 == b.0),
{
    I32x2::lemma_view_determines(a);
    I32x2::lemma_view_determines(b);
    if a@ == b@ {
        assert(a@[0] == b@[0] && a@[1] == b@[1]);
    }
}

/// Swapping the lanes of a two-lane float vector twice gives it back.
pub proof fn law_f32x2_yx_involution(v: F32x2)
    ensures
        ({
            let w = F32x2::lanes(v@[1], v@[0]);
            F32x2::lanes(w@[1], w@[0]) == v
        }),
{
    F32x2::lemma_lanes_view(v@[1], v@[0]);
    F32x2::lemma_view_determines(v);
}

/// Integer `packed_le` is the lane-wise complement of `packed_gt`.
pub proof fn law_i32x4_le_is_not_gt(a: I32x4, b: I32x4)
    ensures
        a.packed_le_spec(b) == a.packed_gt_spec(b).not_spec(),
{
    lemma_not_lane(0, a.0[0] > b.0[0]);
    lemma_not_lane(0, a.0[1] > b.0[1]);
    lemma_not_lane(0, a.0[2] > b.0[2]);
    lemma_not_lane(0, a.0[3] > b.0[3]);
}

/// Float `packed_le` is the lane-wise complement of `packed_gt`.
pub proof fn law_f32x4_le_is_not_gt(a: F32x4, b: F32x4)
    ensures
        a.packed_le_spec(b) == a.packed_gt_spec(b).not_spec(),
{
    lemma_not_lane(0, float_gt(a.0[0], b.0[0]));
    lemma_not_lane(0, float_gt(a.0[1], b.0[1]));
    lemma_not_lane(0, float_gt(a.0[2], b.0[2]));
    lemma_not_lane(0, float_gt(a.0[3], b.0[3]));
}

/// Float `packed_lt` is `packed_gt` with its operands swapped.
pub proof fn law_f32x4_lt_is_swapped_gt(a: F32x4, b: F32x4)
    ensures
        a.packed_lt_spec(b) == b.packed_gt_spec(a),
{
}

/// The equality mask of two integer vectors is all ones exactly when the vectors are equal.
pub proof fn law_i32x4_packed_eq_all_ones(a: I32x4, b: I32x4)
    ensures
        a.packed_eq_spec(b).all_ones() == (a == b),
{
    let p = a.packed_eq_spec(b);
    if p.all_ones() {
        assert(p.0[0] == 0xffff_ffffu32 && p.0[1] == 0xffff_ffffu32);
        assert(p.0[2] == 0xffff_ffffu32 && p.0[3] == 0xffff_ffffu32);
        assert(a.0 =~= b.0);
    }
}

/// Complementing twice gives the vector back.
pub proof fn law_u32x4_not_involution(u: U32x4)
    ensures
        u.not_spec().not_spec() == u,
{
    assert(forall|x: u32| #![trigger !x] !(!x) == x) by (bit_vector);
    assert(u.not_spec().not_spec().0 =~= u.0);
}

/// Exclusive or with the same vector twice gives the vector back.
pub proof fn law_u32x4_xor_cancels(u: U32x4, v: U32x4)
    ensures
        u.xor_spec(v).xor_spec(v) == u,
{
    assert(forall|x: u32, y: u32| #![trigger (x ^ y) ^ y] (x ^ y) ^ y == x) by (bit_vector);
    assert(u.xor_spec(v).xor_spec(v).0 =~= u.0);
}

/// Wrapping subtraction undoes wrapping addition, lane by lane.
pub proof fn law_i32x4_add_then_sub(a: I32x4, b: I32x4)
    ensures
        a.add_spec(b).sub_spec(b) == a,
{
    assert(a.add_spec(b).sub_spec(b).0 =~= a.0);
}

/// Wrapping addition is commutative.
pub proof fn law_i32x4_add_commutes(a: I32x4, b: I32x4)
    ensures
        a.add_spec(b) == b.add_spec(a),
{
}

/// Wrapping multiplication is commutative.
pub proof fn law_i32x4_mul_commutes(a: I32x4, b: I32x4)
    ensures
        a.mul_spec(b) == b.mul_spec(a),
{
    assert(a.0[0] * b.0[0] == b.0[0] * a.0[0]) by (nonlinear_arith);
    assert(a.0[1] * b.0[1] == b.0[1] * a.0[1]) by (nonlinear_arith);
    assert(a.0[2] * b.0[2] == b.0[2] * a.0[2]) by (nonlinear_arith);
    assert(a.0[3] * b.0[3] == b.0[3] * a.0[3]) by (nonlinear_arith);
}

/// Integer minimum is commutative, and each lane of it is no greater than either input lane
/// and equal to one of them.
pub proof fn law_i32x4_min(a: I32x4, b: I32x4)
    ensures
        a.min_spec(b) == b.min_spec(a),
        forall|i: int|
            0 <= i < 4 ==> {
                let m: i32 = #[trigger] a.min_spec(b).0[i];
                &&& m <= a.0[i]
                &&& m <= b.0[i]
                &&& (m == a.0[i] || m == b.0[i])
            },
{
    assert(a.min_spec(b).0@ =~= b.min_spec(a).0@);
}

/// Shifting a lane by zero leaves it unchanged; shifting by 32 or more clears it.
pub proof fn law_shr_lane_bounds(a: i32, count: i32)
    ensures
        shr_lane(a, 0) == a,
        (count as u32) >= 32 ==> shr_lane(a, count) == 0,
{
    assert((((a as u32) >> 0u32) as i32) == a) by (bit_vector);
}

/// Taking the absolute value twice is the same as taking it once, it never changes whether a
/// lane is NaN, and it never leaves a lane below zero.
pub proof fn law_f32x4_abs(v: F32x4)
    ensures
        v.abs_spec().abs_spec() == v.abs_spec(),
        forall|i: int|
            0 <= i < 4 ==> {
                &&& is_nan(#[trigger] v.abs_spec().0[i]) == is_nan(v.0[i])
                &&& order_key(v.abs_spec().0[i]) >= 0
            },
{
    assert(v.abs_spec().abs_spec().0@ =~= v.abs_spec().0@);
}

/// A NaN lane compares false under equality, greater-than and less-than, whatever the other
/// lane holds.
pub proof fn law_nan_compares_false(a: u32, b: u32)
    requires
        is_nan(a) || is_nan(b),
    ensures
        !float_eq(a, b),
        !float_gt(a, b),
        !float_lt(a, b),
{
}

/// Ordered equality is symmetric, and reflexive on lanes that are not NaN.
pub proof fn law_float_eq_symmetric(a: u32, b: u32)
    ensures
        float_eq(a, b) == float_eq(b, a),
        !is_nan(a) ==> float_eq(a, a),
{
}

/// For lanes that are not NaN exactly one of less-than, equality and greater-than holds.
pub proof fn law_float_trichotomy(a: u32, b: u32)
    requires
        !is_nan(a),
        !is_nan(b),
    ensures
        float_lt(a, b) || float_eq(a, b) || float_gt(a, b),
        !(float_lt(a, b) && float_eq(a, b)),
        !(float_lt(a, b) && float_gt(a, b)),
        !(float_eq(a, b) && float_gt(a, b)),
{
}

/// The two zeroes compare equal.
pub proof fn law_zeroes_equal()
    ensures
        float_eq(0u32, 0x8000_0000u32),
{
}

/// Minimum and maximum return one of their operands; when either is NaN they return the
/// second; otherwise the minimum lies at or below both and the maximum at or above both.
pub proof fn law_float_min_max(a: u32, b: u32)
    ensures
        float_min(a, b) == a || float_min(a, b) == b,
        float_max(a, b) == a || float_max(a, b) == b,
        (is_nan(a) || is_nan(b)) ==> float_min(a, b) == b && float_max(a, b) == b,
        (!is_nan(a) && !is_nan(b)) ==> {
            &&& order_key(float_min(a, b)) <= order_key(a)
            &&& order_key(float_min(a, b)) <= order_key(b)
            &&& order_key(float_max(a, b)) >= order_key(a)
            &&& order_key(float_max(a, b)) >= order_key(b)
        },
{
}

/// Clamping a lane that is not NaN between bounds that are not NaN, the lower at or below the
/// upper, lands between the bounds; a lane already between them keeps its value.
pub proof fn law_float_clamp(x: u32, lo: u32, hi: u32)
    requires
        !is_nan(x),
        !is_nan(lo),
        !is_nan(hi),
        order_key(lo) <= order_key(hi),
    ensures
        ({
            let c: u32 = float_min(float_max(x, lo), hi);
            &&& order_key(lo) <= order_key(c) <= order_key(hi)
            &&& !is_nan(c)
            &&& (order_key(lo) <= order_key(x) <= order_key(hi) ==> order_key(c) == order_key(x))
        }),
{
}

/// Every lane of a comparison mask is all ones or all zeroes.
pub proof fn law_mask_lanes(b: bool)
    ensures
        mask(b) == 0xffff_ffffu32 || mask(b) == 0u32,
        (mask(b) == 0xffff_ffffu32) == b,
{
}

/// Two integers leave the same remainder on division by 2^32.  An `i32` lane is determined
/// by its remainder, so a lane congruent to the exact result is the wrapped result.
pub open spec fn congruent_mod_2_32(x: int, y: int) -> bool {
    (x - y) % 0x1_0000_0000 == 0
}

/// The value that `i32` wrapping multiplication keeps is congruent to the exact product.
proof fn lemma_signed_crop_congruent(x: int)
    ensures
        congruent_mod_2_32(vstd::wrapping::i32_specs::signed_crop(x) as int, x),
{
    let m: int = 0x1_0000_0000;
    lemma_fundamental_div_mod(x, m);
    let q: int = x / m;
    if x % m > 0x7fff_ffff {
        assert((x % m - m) - x == (-q - 1) * m) by (nonlinear_arith)
            requires
                x == m * q + x % m,
        ;
        lemma_mod_multiples_basic(-q - 1, m);
    } else {
        assert((x % m) - x == (-q) * m) by (nonlinear_arith)
            requires
                x == m * q + x % m,
        ;
        lemma_mod_multiples_basic(-q, m);
    }
}

/// Wrapping addition and subtraction of `i32` values are congruent to the exact sum and
/// difference.
proof fn lemma_wrapping_add_sub_congruent(x: i32, y: i32)
    ensures
        congruent_mod_2_32(vstd::wrapping::i32_specs::wrapping_add(x, y) as int, x + y),
        congruent_mod_2_32(vstd::wrapping::i32_specs::wrapping_sub(x, y) as int, x - y),
{
    lemma_mod_multiples_basic(1, 0x1_0000_0000);
    lemma_mod_multiples_basic(-1, 0x1_0000_0000);
    lemma_mod_multiples_basic(0, 0x1_0000_0000);
}

/// Each lane of a four-lane product is the exact product of the lanes reduced to 32 bits:
/// it is congruent to it modulo 2^32 (and, being an `i32`, is the only such value).
/// The product of two negative lanes is therefore positive whenever it fits.
pub proof fn law_i32x4_mul_is_lanewise_product(a: I32x4, b: I32x4)
    ensures
        forall|i: int|
            0 <= i < 4 ==> congruent_mod_2_32(
                #[trigger] a.mul_spec(b).0[i] as int,
                a.0[i] * b.0[i],
            ),
        forall|i: int|
            0 <= i < 4 && i32::MIN <= a.0[i] * b.0[i] <= i32::MAX ==> #[trigger] a.mul_spec(
                b,
            ).0[i] == a.0[i] * b.0[i],
{
    lemma_signed_crop_congruent(a.0[0] * b.0[0]);
    lemma_signed_crop_congruent(a.0[1] * b.0[1]);
    lemma_signed_crop_congruent(a.0[2] * b.0[2]);
    lemma_signed_crop_congruent(a.0[3] * b.0[3]);
    assert forall|i: int|
        0 <= i < 4 && i32::MIN <= a.0[i] * b.0[i] <= i32::MAX implies #[trigger] a.mul_spec(
            b,
        ).0[i] == a.0[i] * b.0[i] by {
        let d: int = a.mul_spec(b).0[i] - a.0[i] * b.0[i];
        lemma_fundamental_div_mod(d, 0x1_0000_0000);
    }
}

/// Each lane of a two-lane product is congruent modulo 2^32 to the exact product of the
/// matching lanes, and equals it when it fits.
pub proof fn law_i32x2_mul_is_lanewise_product(a: I32x2, b: I32x2)
    ensures
        forall|i: int|
            0 <= i < 2 ==> congruent_mod_2_32(#[trigger] a.mul_spec(b)@[i] as int, a@[i] * b@[i]),
        forall|i: int|
            0 <= i < 2 && i32::MIN <= a@[i] * b@[i] <= i32::MAX ==> #[trigger] a.mul_spec(b)@[i]
                == a@[i] * b@[i],
{
    let x0: i32 = vstd::wrapping::i32_specs::wrapping_mul(a@[0], b@[0]);
    let x1: i32 = vstd::wrapping::i32_specs::wrapping_mul(a@[1], b@[1]);
    I32x2::lemma_lanes_view(x0, x1);
    lemma_signed_crop_congruent(a@[0] * b@[0]);
    lemma_signed_crop_congruent(a@[1] * b@[1]);
    assert forall|i: int|
        0 <= i < 2 && i32::MIN <= a@[i] * b@[i] <= i32::MAX implies #[trigger] a.mul_spec(b)@[i]
        == a@[i] * b@[i] by {
        let d: int = a.mul_spec(b)@[i] - a@[i] * b@[i];
        lemma_fundamental_div_mod(d, 0x1_0000_0000);
    }
}

/// Each lane of a four-lane sum or difference is congruent modulo 2^32 to the exact sum or
/// difference of the matching lanes: no lane sees another lane's carry or borrow.
pub proof fn law_i32x4_add_sub_are_lanewise(a: I32x4, b: I32x4)
    ensures
        forall|i: int|
            0 <= i < 4 ==> congruent_mod_2_32(#[trigger] a.add_spec(b).0[i] as int, a.0[i] + b.0[i]),
        forall|i: int|
            0 <= i < 4 ==> congruent_mod_2_32(#[trigger] a.sub_spec(b).0[i] as int, a.0[i] - b.0[i]),
{
    lemma_wrapping_add_sub_congruent(a.0[0], b.0[0]);
    lemma_wrapping_add_sub_congruent(a.0[1], b.0[1]);
    lemma_wrapping_add_sub_congruent(a.0[2], b.0[2]);
    lemma_wrapping_add_sub_congruent(a.0[3], b.0[3]);
}

/// Each lane of a two-lane sum or difference is congruent modulo 2^32 to the exact sum or
/// difference of the matching lanes: lane 1 depends on lane 1 of the operands only.
pub proof fn law_i32x2_add_sub_are_lanewise(a: I32x2, b: I32x2)
    ensures
        forall|i: int|
            0 <= i < 2 ==> congruent_mod_2_32(#[trigger] a.add_spec(b)@[i] as int, a@[i] + b@[i]),
        forall|i: int|
            0 <= i < 2 ==> congruent_mod_2_32(#[trigger] a.sub_spec(b)@[i] as int, a@[i] - b@[i]),
{
    I32x2::lemma_lanes_view(
        vstd::wrapping::i32_specs::wrapping_add(a@[0], b@[0]),
        vstd::wrapping::i32_specs::wrapping_add(a@[1], b@[1]),
    );
    I32x2::lemma_lanes_view(
        vstd::wrapping::i32_specs::wrapping_sub(a@[0], b@[0]),
        vstd::wrapping::i32_specs::wrapping_sub(a@[1], b@[1]),
    );
    lemma_wrapping_add_sub_congruent(a@[0], b@[0]);
    lemma_wrapping_add_sub_congruent(a@[1], b@[1]);
}

/// Integer vectors compare equal with `==` exactly when they are the same vector, all four
/// lanes included.
pub proof fn law_i32x4_eq_is_identity(a: I32x4, b: I32x4)
    ensures
        a.eq_spec(&b) == (a == b),
{
    if a@ == b@ {
        assert(a.0 =~= b.0);
    }
}

/// Two-lane integer vectors compare equal with `==` exactly when their bits are equal.
pub proof fn law_i32x2_eq_is_identity(a: I32x2, b: I32x2)
    ensures
        a.eq_spec(&b) == (a.0 == b.0),
{
    law_i32x2_lanes_equal_iff_bits_equal(a, b);
}

/// Unsigned vectors compare equal with `==` exactly when they are the same vector.
pub proof fn law_u32x4_eq_is_identity(a: U32x4, b: U32x4)
    ensures
        a.eq_spec(&b) == (a == b),
{
    if a@ == b@ {
        assert(a.0 =~= b.0);
    }
}

/// Float vectors compare equal with `==` exactly when, in each of the four lanes, neither
/// lane is NaN and both lie at the same point of the number line.
pub proof fn law_f32x4_eq_is_lanewise(a: F32x4, b: F32x4)
    ensures
        a.eq_spec(&b) == (forall|i: int|
            0 <= i < 4 ==> !is_nan(#[trigger] a.0[i]) && !is_nan(b.0[i]) && order_key(a.0[i])
                == order_key(b.0[i])),
{
}

/// Two-lane float vectors compare equal with `==` exactly when, in both lanes, neither lane
/// is NaN and both lie at the same point of the number line.
pub proof fn law_f32x2_eq_is_lanewise(a: F32x2, b: F32x2)
    ensures
        a.eq_spec(&b) == (forall|i: int|
            0 <= i < 2 ==> !is_nan(#[trigger] a@[i]) && !is_nan(b@[i]) && order_key(a@[i])
                == order_key(b@[i])),
{
    if a.eq_spec(&b) {
        assert forall|i: int| 0 <= i < 2 implies !is_nan(#[trigger] a@[i]) && !is_nan(b@[i])
            && order_key(a@[i]) == order_key(b@[i]) by {
            if i == 0 {
            } else {
            }
        }
    } else {
        if float_eq(a@[0], b@[0]) {
            assert(!float_eq(a@[1], b@[1]));
        } else {
            assert(!float_eq(a@[0], b@[0]));
        }
    }
}

/// A four-lane mask is all zeroes exactly when each of its four lanes is zero, and all ones
/// exactly when each of its four lanes is `0xffff_ffff`.
pub proof fn law_u32x4_mask_tests(v: U32x4)
    ensures
        v.all_zeroes() == (v@[0] == 0 && v@[1] == 0 && v@[2] == 0 && v@[3] == 0),
        v.all_ones() == (v@[0] == 0xffff_ffffu32 && v@[1] == 0xffff_ffffu32 && v@[2]
            == 0xffff_ffffu32 && v@[3] == 0xffff_ffffu32),
        v.all_zeroes() == (v@ == seq![0u32, 0u32, 0u32, 0u32]),
{
    if v@ == seq![0u32, 0u32, 0u32, 0u32] {
        assert(v@[0] == 0 && v@[1] == 0 && v@[2] == 0 && v@[3] == 0);
    }
    if v.all_zeroes() {
        assert(v.0[0] == 0 && v.0[1] == 0 && v.0[2] == 0 && v.0[3] == 0);
        assert(v@ =~= seq![0u32, 0u32, 0u32, 0u32]);
    }
    if v.all_ones() {
        assert(v.0[0] == 0xffff_ffffu32 && v.0[1] == 0xffff_ffffu32);
        assert(v.0[2] == 0xffff_ffffu32 && v.0[3] == 0xffff_ffffu32);
    }
}

/// Complementing a lane subtracts it from `0xffff_ffff`, and exclusive or of a lane with
/// itself is zero and with zero is the lane.
pub proof fn law_u32x4_not_xor_values(u: U32x4, v: U32x4)
    ensures
        forall|i: int|
            0 <= i < 4 ==> #[trigger] u.not_spec().0[i] as int == 0xffff_ffff - u.0[i] as int,
        u.xor_spec(u) == U32x4::lanes(0, 0, 0, 0),
        u.xor_spec(U32x4::lanes(0, 0, 0, 0)) == u,
        u.xor_spec(v) == v.xor_spec(u),
{
    assert(forall|x: u32, y: u32|
        #![trigger x ^ y]
        !x == 0xffff_ffffu32 - x && x ^ x == 0u32 && x ^ 0u32 == x && x ^ y == y ^ x)
        by (bit_vector);
    assert(u.xor_spec(u).0 =~= U32x4::lanes(0, 0, 0, 0).0);
    assert(u.xor_spec(U32x4::lanes(0, 0, 0, 0)).0 =~= u.0);
    assert(u.xor_spec(v).0 =~= v.xor_spec(u).0);
}

/// The identities of bitwise and and or on one lane.
proof fn lemma_and_or_lane(x: i32, y: i32)
    by (bit_vector)
    ensures
        x & 0i32 == 0i32,
        x & -1i32 == x,
        x | 0i32 == x,
        x | -1i32 == -1i32,
        x & y == y & x,
        x | y == y | x,
        x & (x | y) == x,
{
}

/// Bitwise and with zero clears a lane and with all ones keeps it; bitwise or with zero keeps
/// a lane and with all ones sets it; both are commutative, and and absorbs or.
pub proof fn law_i32x4_and_or(a: I32x4, b: I32x4)
    ensures
        a.bitand_spec(I32x4::lanes(0, 0, 0, 0)) == I32x4::lanes(0, 0, 0, 0),
        a.bitand_spec(I32x4::lanes(-1i32, -1i32, -1i32, -1i32)) == a,
        a.bitor_spec(I32x4::lanes(0, 0, 0, 0)) == a,
        a.bitor_spec(I32x4::lanes(-1i32, -1i32, -1i32, -1i32)) == I32x4::lanes(-1i32, -1i32, -1i32, -1i32),
        a.bitand_spec(b) == b.bitand_spec(a),
        a.bitor_spec(b) == b.bitor_spec(a),
        a.bitand_spec(a.bitor_spec(b)) == a,
{
    lemma_and_or_lane(a.0[0], b.0[0]);
    lemma_and_or_lane(a.0[1], b.0[1]);
    lemma_and_or_lane(a.0[2], b.0[2]);
    lemma_and_or_lane(a.0[3], b.0[3]);
    assert(a.bitand_spec(I32x4::lanes(0, 0, 0, 0)).0 =~= I32x4::lanes(0, 0, 0, 0).0);
    assert(a.bitand_spec(I32x4::lanes(-1i32, -1i32, -1i32, -1i32)).0 =~= a.0);
    assert(a.bitor_spec(I32x4::lanes(0, 0, 0, 0)).0 =~= a.0);
    assert(a.bitor_spec(I32x4::lanes(-1i32, -1i32, -1i32, -1i32)).0 =~= I32x4::lanes(-1i32, -1i32, -1i32, -1i32).0);
    assert(a.bitand_spec(b).0 =~= b.bitand_spec(a).0);
    assert(a.bitor_spec(b).0 =~= b.bitor_spec(a).0);
    assert(a.bitand_spec(a.bitor_spec(b)).0 =~= a.0);
}

/// A lane shifted by a count below 32 holds, read as unsigned, the unsigned lane divided by
/// 2 to the count.
pub proof fn law_i32x4_shr_divides(a: I32x4, counts: I32x4)
    ensures
        forall|i: int|
            0 <= i < 4 && (counts.0[i] as u32) < 32 ==> (#[trigger] a.shr_spec(counts).0[i]
                as u32) as int == (a.0[i] as u32) as int / pow2((counts.0[i] as u32) as nat) as int,
{
    assert forall|i: int| 0 <= i < 4 && (counts.0[i] as u32) < 32 implies (#[trigger] a.shr_spec(
        counts,
    ).0[i] as u32) as int == (a.0[i] as u32) as int / pow2((counts.0[i] as u32) as nat) as int by {
        let x: u32 = a.0[i] as u32;
        let n: u32 = counts.0[i] as u32;
        lemma_u32_shr_is_div(x, n);
        crate::bits::lemma_u32_i32_roundtrip(x >> n, 0);
    }
}

/// Each lane of an integer comparison mask is all ones when the comparison holds of the
/// matching lanes and zero when it does not.
pub proof fn law_i32x4_mask_lanes(a: I32x4, b: I32x4)
    ensures
        forall|i: int|
            0 <= i < 4 ==> {
                &&& (#[trigger] a.packed_eq_spec(b).0[i] == 0xffff_ffffu32) == (a.0[i] == b.0[i])
                &&& (a.packed_eq_spec(b).0[i] == 0u32) == (a.0[i] != b.0[i])
                &&& (a.packed_gt_spec(b).0[i] == 0xffff_ffffu32) == (a.0[i] > b.0[i])
                &&& (a.packed_gt_spec(b).0[i] == 0u32) == (a.0[i] <= b.0[i])
                &&& (a.packed_le_spec(b).0[i] == 0xffff_ffffu32) == (a.0[i] <= b.0[i])
                &&& (a.packed_le_spec(b).0[i] == 0u32) == (a.0[i] > b.0[i])
            },
{
}

/// Each lane of a float comparison mask is all ones when the ordered comparison holds of the
/// matching lanes (neither NaN, and the points of the number line compare) and zero when it
/// does not.
pub proof fn law_f32x4_mask_lanes(a: F32x4, b: F32x4)
    ensures
        forall|i: int|
            0 <= i < 4 ==> {
                let x = a.0[i];
                let y = b.0[i];
                let ordered = !is_nan(x) && !is_nan(y);
                &&& (#[trigger] a.packed_eq_spec(b).0[i] == 0xffff_ffffu32) == (ordered
                    && order_key(x) == order_key(y))
                &&& (a.packed_gt_spec(b).0[i] == 0xffff_ffffu32) == (ordered && order_key(x)
                    > order_key(y))
                &&& (a.packed_lt_spec(b).0[i] == 0xffff_ffffu32) == (ordered && order_key(x)
                    < order_key(y))
                &&& (a.packed_le_spec(b).0[i] == 0xffff_ffffu32) == !(ordered && order_key(x)
                    > order_key(y))
                &&& a.packed_eq_spec(b).0[i] == 0xffff_ffffu32 || a.packed_eq_spec(b).0[i] == 0u32
            },
{
}

/// Each lane of a float minimum or maximum is one of the two input lanes; when neither is
/// NaN the minimum lies at or below both and the maximum at or above both; when either is
/// NaN both give the lane of the second operand.
pub proof fn law_f32x4_min_max_lanes(a: F32x4, b: F32x4)
    ensures
        forall|i: int|
            0 <= i < 4 ==> {
                let x = a.0[i];
                let y = b.0[i];
                let lo = #[trigger] a.min_spec(b).0[i];
                let hi = a.max_spec(b).0[i];
                &&& (lo == x || lo == y)
                &&& (hi == x || hi == y)
                &&& (is_nan(x) || is_nan(y)) ==> lo == y && hi == y
                &&& (!is_nan(x) && !is_nan(y)) ==> {
                    &&& order_key(lo) <= order_key(x)
                    &&& order_key(lo) <= order_key(y)
                    &&& order_key(hi) >= order_key(x)
                    &&& order_key(hi) >= order_key(y)
                }
            },
{
}

/// Each lane of a float absolute value is the lane with its sign bit cleared: below the sign
/// bit, and equal to the lane or the lane less the sign bit.
pub proof fn law_f32x4_abs_clears_sign(v: F32x4)
    ensures
        forall|i: int|
            0 <= i < 4 ==> {
                let r = #[trigger] v.abs_spec().0[i];
                &&& r < 0x8000_0000u32
                &&& (v.0[i] < 0x8000_0000u32 ==> r == v.0[i])
                &&& (v.0[i] >= 0x8000_0000u32 ==> r as int == v.0[i] - 0x8000_0000)
            },
{
}

} // verus!

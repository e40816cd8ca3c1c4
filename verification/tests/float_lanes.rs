use pathfinder_simd::{F32x2, F32x4, U32x2, U32x4};

fn f4(a: f32, b: f32, c: f32, d: f32) -> F32x4 {
    F32x4([a.to_bits(), b.to_bits(), c.to_bits(), d.to_bits()])
}

fn f2(a: f32, b: f32) -> F32x2 {
    F32x2((a.to_bits() as u64) | ((b.to_bits() as u64) << 32))
}

fn vals4(v: F32x4) -> [f32; 4] {
    [f32::from_bits(v.0[0]), f32::from_bits(v.0[1]), f32::from_bits(v.0[2]), f32::from_bits(v.0[3])]
}

fn vals2(v: F32x2) -> [f32; 2] {
    [f32::from_bits(v.0 as u32), f32::from_bits((v.0 >> 32) as u32)]
}

fn bits4(v: F32x4) -> [u32; 4] {
    v.0
}

fn m4(v: U32x4) -> [u32; 4] {
    [v.index(0), v.index(1), v.index(2), v.index(3)]
}

fn m2(v: U32x2) -> [u32; 2] {
    [v.0 as u32, (v.0 >> 32) as u32]
}

const T: u32 = 0xffff_ffff;

#[test]
fn f32x4_min_max_follow_sse() {
    let a = f4(1.0, -2.0, f32::NAN, 0.0);
    let b = f4(2.0, -3.0, 5.0, -0.0);
    assert_eq!(vals4(a.min(b))[..2], [1.0, -3.0]);
    assert_eq!(bits4(a.min(b))[2], 5.0f32.to_bits());
    assert_eq!(bits4(a.min(b))[3], (-0.0f32).to_bits());
    assert_eq!(vals4(a.max(b))[..2], [2.0, -2.0]);
    assert_eq!(bits4(a.max(b))[2], 5.0f32.to_bits());
    assert_eq!(bits4(a.max(b))[3], (-0.0f32).to_bits());
    let c = f4(f32::NAN, 1.0, 1.0, 1.0);
    let d = f4(1.0, f32::NAN, f32::INFINITY, f32::NEG_INFINITY);
    assert!(vals4(c.min(d))[0] == 1.0);
    assert!(vals4(c.min(d))[1].is_nan());
    assert_eq!(vals4(c.min(d))[2..], [1.0, f32::NEG_INFINITY]);
    assert_eq!(vals4(c.max(d))[2..], [f32::INFINITY, 1.0]);
}

#[test]
fn f32x4_clamp() {
    let v = f4(-5.0, 0.5, 9.0, 1.0);
    let lo = f4(0.0, 0.0, 0.0, 0.0);
    let hi = f4(1.0, 1.0, 1.0, 1.0);
    assert_eq!(vals4(v.clamp(lo, hi)), [0.0, 0.5, 1.0, 1.0]);
}

#[test]
fn f32x4_abs_clears_sign_bits() {
    let v = f4(-1.5, 2.0, -0.0, f32::NEG_INFINITY);
    assert_eq!(bits4(v.abs()), [1.5f32.to_bits(), 2.0f32.to_bits(), 0, f32::INFINITY.to_bits()]);
    assert_eq!(bits4(v.abs().abs()), bits4(v.abs()));
    let n = F32x4([0xffc0_0000, 0, 0, 0]);
    assert_eq!(n.abs().0[0], 0x7fc0_0000);
}

#[test]
fn f32x4_comparisons() {
    let a = f4(1.0, 0.0, f32::NAN, -1.0);
    let b = f4(1.0, -0.0, f32::NAN, 2.0);
    assert_eq!(m4(a.packed_eq(b)), [T, T, 0, 0]);
    assert_eq!(m4(a.packed_gt(b)), [0, 0, 0, 0]);
    assert_eq!(m4(b.packed_gt(a)), [0, 0, 0, T]);
    assert_eq!(m4(a.packed_lt(b)), [0, 0, 0, T]);
    assert_eq!(m4(a.packed_le(b)), [T, T, T, T]);
    assert_eq!(m4(b.packed_le(a)), [T, T, T, 0]);
    let big = f4(f32::INFINITY, -1.0e-40, 3.0e38, -2.5);
    let small = f4(3.0e38, -2.0e-40, -3.0e38, -3.5);
    assert_eq!(m4(big.packed_gt(small)), [T, T, T, T]);
    assert_eq!(m4(small.packed_lt(big)), [T, T, T, T]);
}

#[test]
fn f32x4_equality_is_ordered() {
    assert!(f4(1.0, 2.0, 0.0, -4.0) == f4(1.0, 2.0, -0.0, -4.0));
    assert!(f4(1.0, 2.0, 3.0, f32::NAN) != f4(1.0, 2.0, 3.0, f32::NAN));
    assert!(f4(1.0, 2.0, 3.0, 4.0) != f4(1.0, 2.0, 3.0, 5.0));
}

#[test]
fn f32x4_swizzles_and_concatenations() {
    let v = f4(1.0, 2.0, 3.0, 4.0);
    let w = f4(5.0, 6.0, 7.0, 8.0);
    assert_eq!(vals2(v.xy()), [1.0, 2.0]);
    assert_eq!(vals2(v.xw()), [1.0, 4.0]);
    assert_eq!(vals2(v.yx()), [2.0, 1.0]);
    assert_eq!(vals2(v.zy()), [3.0, 2.0]);
    assert_eq!(vals2(v.zw()), [3.0, 4.0]);
    assert_eq!(vals4(v.concat_xy_xy(w)), [1.0, 2.0, 5.0, 6.0]);
    assert_eq!(vals4(v.concat_xy_zw(w)), [1.0, 2.0, 7.0, 8.0]);
    assert_eq!(vals4(v.concat_zw_zw(w)), [3.0, 4.0, 7.0, 8.0]);
    assert_eq!(vals4(v.concat_wz_yx(w)), [4.0, 3.0, 6.0, 5.0]);
    assert_eq!(bits4(F32x4::default()), [0; 4]);
}

#[test]
fn f32x2_lane_operations() {
    let a = f2(1.0, -2.0);
    let b = f2(0.5, 3.0);
    assert_eq!(vals2(a.min(b)), [0.5, -2.0]);
    assert_eq!(vals2(a.max(b)), [1.0, 3.0]);
    assert_eq!(vals2(a.abs()), [1.0, 2.0]);
    assert_eq!(vals2(a.yx()), [-2.0, 1.0]);
    assert_eq!(vals2(a.yx().yx()), vals2(a));
    assert_eq!(vals2(f2(-7.0, 7.0).clamp(f2(-1.0, -1.0), f2(1.0, 1.0))), [-1.0, 1.0]);
    assert_eq!(vals4(a.to_f32x4()), [1.0, -2.0, 0.0, 0.0]);
    assert_eq!(vals4(a.concat_xy_xy(b)), [1.0, -2.0, 0.5, 3.0]);
    assert_eq!(F32x2::default().0, 0);
}

#[test]
fn f32x2_comparisons() {
    let a = f2(1.0, f32::NAN);
    let b = f2(2.0, 1.0);
    assert_eq!(m2(a.packed_eq(b)), [0, 0]);
    assert_eq!(m2(a.packed_eq(a)), [T, 0]);
    assert_eq!(m2(b.packed_gt(a)), [T, 0]);
    assert_eq!(m2(a.packed_lt(b)), [T, 0]);
    assert_eq!(m2(a.packed_le(b)), [T, T]);
    assert_eq!(m2(b.packed_le(a)), [0, T]);
    assert!(a.packed_le(b).is_all_ones());
    assert!(f2(0.0, 1.0) == f2(-0.0, 1.0));
    assert!(a != a);
}


#[test]
fn f32x2_widen_then_narrow_gives_it_back() {
    let v = f2(-0.0, f32::NAN);
    assert_eq!(v.to_f32x4().xy().0, v.0);
}

#[test]
fn f32_trichotomy_on_ordered_lanes() {
    let a = f4(1.0, -1.0, 0.0, f32::INFINITY);
    let b = f4(2.0, -1.0, -0.0, 1.0);
    let lt = m4(a.packed_lt(b));
    let eq = m4(a.packed_eq(b));
    let gt = m4(a.packed_gt(b));
    for i in 0..4 {
        let set = [lt[i], eq[i], gt[i]].iter().filter(|&&m| m == T).count();
        assert_eq!(set, 1);
    }
    assert!(a.packed_le(b) == !a.packed_gt(b));
    assert!(a.packed_lt(b) == b.packed_gt(a));
}

#[test]
fn f32_nan_lanes_compare_false() {
    let n = f4(f32::NAN, -f32::NAN, 1.0, f32::NAN);
    let x = f4(1.0, f32::NAN, f32::NAN, f32::INFINITY);
    assert!(n.packed_eq(x).is_all_zeroes());
    assert!(n.packed_gt(x).is_all_zeroes());
    assert!(n.packed_lt(x).is_all_zeroes());
    assert!(n.packed_le(x).is_all_ones());
}

#[test]
fn f32_clamp_lands_between_bounds() {
    let lo = f4(-1.0, -1.0, -1.0, -1.0);
    let hi = f4(2.0, 2.0, 2.0, 2.0);
    let v = f4(-100.0, -0.5, 1.5, 1.0e30);
    let c = v.clamp(lo, hi);
    assert_eq!(vals4(c), [-1.0, -0.5, 1.5, 2.0]);
    assert!(c.packed_lt(lo).is_all_zeroes());
    assert!(c.packed_gt(hi).is_all_zeroes());
}

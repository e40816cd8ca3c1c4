use pathfinder_simd::{I32x2, I32x4, U32x2, U32x4};

fn lanes4(v: I32x4) -> [i32; 4] {
    [v.index(0), v.index(1), v.index(2), v.index(3)]
}

fn lanes2(v: I32x2) -> [i32; 2] {
    [v.index(0), v.index(1)]
}

fn ulanes4(v: U32x4) -> [u32; 4] {
    [v.index(0), v.index(1), v.index(2), v.index(3)]
}

#[test]
fn i32x2_new_puts_lane_zero_low() {
    let v = I32x2::new(1, -2);
    assert_eq!(v.0, 0xffff_fffe_0000_0001u64);
    assert_eq!(lanes2(v), [1, -2]);
}

#[test]
fn i32x2_splat_and_default() {
    assert_eq!(lanes2(I32x2::splat(-7)), [-7, -7]);
    assert_eq!(I32x2::default().0, 0);
}

#[test]
fn i32x2_set_replaces_one_lane() {
    let mut v = I32x2::new(3, 4);
    v.set(1, i32::MIN);
    assert_eq!(lanes2(v), [3, i32::MIN]);
    v.set(0, -1);
    assert_eq!(lanes2(v), [-1, i32::MIN]);
}

#[test]
fn i32x2_widen_and_concat() {
    let a = I32x2::new(5, -6);
    let b = I32x2::new(7, 8);
    assert_eq!(lanes4(a.to_i32x4()), [5, -6, 0, 0]);
    let c = a.concat_xy_xy(b);
    assert_eq!(lanes4(c), [5, -6, 7, 8]);
    assert!(c.xy() == a);
    assert!(c.zw() == b);
}

#[test]
fn i32x2_min_and_comparisons() {
    let a = I32x2::new(-3, 10);
    let b = I32x2::new(2, 10);
    assert_eq!(lanes2(a.min(b)), [-3, 10]);
    assert_eq!(ulanes4(a.packed_eq(b)), [0, !0, !0, !0]);
    assert_eq!(ulanes4(a.packed_gt(b)), [0, 0, 0, 0]);
    assert_eq!(ulanes4(b.packed_gt(a)), [!0, 0, 0, 0]);
    assert_eq!(ulanes4(a.packed_le(b)), [!0, !0, !0, !0]);
    assert_eq!(ulanes4(b.packed_le(a)), [0, !0, !0, !0]);
}

#[test]
fn i32x2_arithmetic_wraps() {
    let a = I32x2::new(i32::MAX, -4);
    let b = I32x2::new(1, 3);
    assert_eq!(lanes2(a + b), [i32::MIN, -1]);
    assert_eq!(lanes2(a - b), [i32::MAX - 1, -7]);
    assert_eq!(lanes2(a * b), [i32::MAX, -12]);
    assert_eq!(lanes2((a + b) - b), lanes2(a));
}

#[test]
fn i32x2_equality() {
    assert!(I32x2::new(1, 2) == I32x2::new(1, 2));
    assert!(I32x2::new(1, 2) != I32x2::new(1, 3));
    assert!(I32x2::new(1, 2) != I32x2::new(0, 2));
}

#[test]
fn i32x4_construction_and_swizzles() {
    let v = I32x4::new(1, 2, 3, 4);
    assert_eq!(lanes4(v), [1, 2, 3, 4]);
    assert_eq!(lanes4(I32x4::splat(9)), [9, 9, 9, 9]);
    assert_eq!(lanes4(I32x4::default()), [0, 0, 0, 0]);
    assert_eq!(lanes2(v.xy()), [1, 2]);
    assert_eq!(lanes2(v.xw()), [1, 4]);
    assert_eq!(lanes2(v.yx()), [2, 1]);
    assert_eq!(lanes2(v.zy()), [3, 2]);
    assert_eq!(lanes2(v.zw()), [3, 4]);
    let w = I32x4::new(5, 6, 7, 8);
    assert_eq!(lanes4(v.concat_xy_xy(w)), [1, 2, 5, 6]);
}

#[test]
fn i32x4_set_replaces_one_lane() {
    let mut v = I32x4::new(1, 2, 3, 4);
    v.set(2, -30);
    assert_eq!(lanes4(v), [1, 2, -30, 4]);
}

#[test]
fn i32x4_min_and_masks() {
    let a = I32x4::new(-1, 5, i32::MIN, 0);
    let b = I32x4::new(1, 5, i32::MAX, -1);
    assert_eq!(lanes4(a.min(b)), [-1, 5, i32::MIN, -1]);
    assert_eq!(lanes4(a.min(b)), lanes4(b.min(a)));
    assert_eq!(ulanes4(a.packed_eq(b)), [0, !0, 0, 0]);
    assert_eq!(ulanes4(a.packed_gt(b)), [0, 0, 0, !0]);
    assert_eq!(ulanes4(a.packed_le(b)), [!0, !0, !0, 0]);
}

#[test]
fn i32x4_wrapping_arithmetic() {
    let a = I32x4::new(i32::MAX, i32::MIN, 100_000, -3);
    let b = I32x4::new(1, 1, 100_000, 7);
    assert_eq!(lanes4(a + b), [i32::MIN, i32::MIN + 1, 200_000, 4]);
    assert_eq!(lanes4(a - b), [i32::MAX - 1, i32::MAX, 0, -10]);
    assert_eq!(lanes4(a * b), [i32::MAX, i32::MIN, 1_410_065_408, -21]);
    assert_eq!(lanes4((a + b) - b), lanes4(a));
    assert_eq!(lanes4(a * b), lanes4(b * a));
}

#[test]
fn i32x4_bitwise_and_shift() {
    let a = I32x4::new(0b1100, -1, 0x0f0f, i32::MIN);
    let b = I32x4::new(0b1010, 0x00ff, 0x00ff, -1);
    assert_eq!(lanes4(a & b), [0b1000, 0x00ff, 0x000f, i32::MIN]);
    assert_eq!(lanes4(a | b), [0b1110, -1, 0x0fff, -1]);
    let counts = I32x4::new(2, 28, 0, 32);
    assert_eq!(lanes4(a >> counts), [0b11, 0xf, 0x0f0f, 0]);
    assert_eq!(lanes4(I32x4::splat(-1) >> I32x4::splat(1)), [i32::MAX; 4]);
    assert_eq!(lanes4(I32x4::splat(-1) >> I32x4::splat(-1)), [0; 4]);
}

#[test]
fn i32x4_equality() {
    assert!(I32x4::new(1, 2, 3, 4) == I32x4::new(1, 2, 3, 4));
    assert!(I32x4::new(1, 2, 3, 4) != I32x4::new(1, 2, 3, 5));
}

#[test]
fn u32x2_all_ones_and_zeroes() {
    assert!(U32x2(!0).is_all_ones());
    assert!(!U32x2(0xffff_ffff).is_all_ones());
    assert!(!U32x2(0xffff_ffff_0000_0000).is_all_ones());
    assert!(U32x2(0).is_all_zeroes());
    assert!(!U32x2(1 << 40).is_all_zeroes());
}

#[test]
fn u32x4_basics() {
    let v = U32x4::new(1, 2, 3, 0xffff_ffff);
    assert_eq!(ulanes4(v), [1, 2, 3, 0xffff_ffff]);
    assert_eq!(ulanes4(U32x4::splat(6)), [6; 4]);
    assert_eq!(v.xy().0, 0x0000_0002_0000_0001u64);
    assert!(U32x4::splat(!0).is_all_ones());
    assert!(!v.is_all_ones());
    assert!(U32x4::splat(0).is_all_zeroes());
    assert!(!U32x4::new(0, 0, 0, 1).is_all_zeroes());
}

#[test]
fn u32x4_not_xor_and_equality() {
    let v = U32x4::new(0, 1, 0xffff_ffff, 0x1234_5678);
    assert_eq!(ulanes4(!v), [0xffff_ffff, 0xffff_fffe, 0, 0xedcb_a987]);
    assert!(!!v == v);
    let w = U32x4::new(3, 3, 3, 3);
    assert_eq!(ulanes4(v ^ w), [3, 2, 0xffff_fffc, 0x1234_567b]);
    assert!((v ^ w) ^ w == v);
    assert_eq!(ulanes4(v.packed_eq(w)), [0, 0, 0, 0]);
    assert_eq!(ulanes4(v.packed_eq(v)), [!0; 4]);
    assert!(v != w);
}

#[test]
fn i32x2_widen_then_narrow_gives_it_back() {
    for v in [I32x2::new(0, 0), I32x2::new(-1, i32::MAX), I32x2::new(i32::MIN, 17)] {
        assert_eq!(v.to_i32x4().xy().0, v.0);
    }
}

#[test]
fn i32x4_le_is_complement_of_gt() {
    let a = I32x4::new(-5, 0, 9, i32::MIN);
    let b = I32x4::new(-5, 1, 8, i32::MAX);
    assert!(a.packed_le(b) == !a.packed_gt(b));
    assert!(a.packed_eq(a).is_all_ones());
    assert!(!a.packed_eq(b).is_all_ones());
}

#[test]
fn i32x4_shift_by_zero_and_by_large_counts() {
    let a = I32x4::new(-8, 8, i32::MIN, 1);
    assert_eq!(lanes4(a >> I32x4::splat(0)), lanes4(a));
    assert_eq!(lanes4(a >> I32x4::new(32, 33, 1000, i32::MIN)), [0; 4]);
    assert_eq!(lanes4(a >> I32x4::new(31, 1, 31, 0)), [1, 4, 1, 1]);
}

# pathfinder_simd

Packed vectors of 32-bit lanes with verified contracts.

- `src/bits.rs`: packing two lanes into a `u64`, and comparison masks.
- `src/float.rs`: binary32 lanes as bit patterns; NaN, ordered comparison, min, max, abs.
- `src/u32x2.rs`, `src/u32x4.rs`, `src/i32x2.rs`, `src/i32x4.rs`, `src/f32x2.rs`, `src/f32x4.rs`:
  the vector types; every operation states its result lane by lane.
- `src/laws.rs`: properties that relate several operations.
- `app/`: float arithmetic, rounding and conversions, and `Debug` formatting, which need
  floating-point values.

//! Packed SIMD vectors of 32-bit lanes.
//!
//! Every vector is modelled by the sequence of its lanes.  Two-lane vectors
//! keep both lanes in one `u64` (lane 0 in the low half, lane 1 in the high
//! half); four-lane vectors keep an array of lanes.  Lanes of the `F32` types
//! are IEEE-754 binary32 bit patterns.
pub mod bits;
pub mod f32x2;
pub mod f32x4;
pub mod float;
pub mod i32x2;
pub mod i32x4;
pub mod laws;
pub mod u32x2;
pub mod u32x4;

pub use f32x2::F32x2;
pub use f32x4::F32x4;
pub use i32x2::I32x2;
pub use i32x4::I32x4;
pub use u32x2::U32x2;
pub use u32x4::U32x4;

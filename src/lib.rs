//! Constant-time comparison of composite values, composed field by field
//! from constant-time comparisons of their leaves.
//!
//! - `mask`: the 0x00 / 0xFF carrier that comparison results travel in.
//! - `leaf`: the leaf primitives, implemented for the unsigned integers.
//! - `order`: the lexicographic order on field keys that the results follow.
//! - `iterated`: the equal, greater-than and less-than composers.
//! - `composite`: whole-value comparisons of slices and the three-way adapter.
//! - `laws`: reflexivity, trichotomy, antisymmetry and the rest, proved.
//! - `shape`: the ordered field accessors of a record type.

pub mod mask;
pub mod order;
pub mod leaf;
pub mod iterated;
pub mod composite;
pub mod laws;
pub mod shape;

//! Leaf comparisons: the constant-time primitives that composite comparisons
//! are built from.

use vstd::prelude::*;
use subtle::ConstantTimeEq;
use subtle::ConstantTimeGreater;

verus! {

use crate::mask::Mask;

/// A field type that compares with another value of its type in constant time.
///
/// Its values are ordered by `key`, a position in the integers; `leaf_eq` and
/// `leaf_gt` report that order as masks and must not branch on the values.
pub trait CtLeaf {
    /// Where this value stands in the type's order.
    spec fn key(&self) -> int;

    /// The two values have the same key.
    fn leaf_eq(&self, other: &Self) -> (r: Mask)
        ensures
            r@ == (self.key() == other.key()),
    ;

    /// This value's key is greater than the other's.
    fn leaf_gt(&self, other: &Self) -> (r: Mask)
        ensures
            r@ == (self.key() > other.key()),
    ;
}

/// Relies on subtle's `ConstantTimeEq` for `u8`: the `Choice` unwraps to 1
/// when the two are equal and to 0 otherwise.
#[verifier::external_body]
fn u8_ct_eq(a: &u8, b: &u8) -> (r: u8)
    ensures
        r == (if *a == *b { 1u8 } else { 0u8 }),
{
    a.ct_eq(b).unwrap_u8()
}

/// Relies on subtle's `ConstantTimeGreater` for `u8`: the `Choice` unwraps
/// to 1 when `a > b` and to 0 otherwise.
#[verifier::external_body]
fn u8_ct_gt(a: &u8, b: &u8) -> (r: u8)
    ensures
        r == (if *a > *b { 1u8 } else { 0u8 }),
{
    a.ct_gt(b).unwrap_u8()
}

/// Relies on subtle's `ConstantTimeEq` for `u16`: the `Choice` unwraps to 1
/// when the two are equal and to 0 otherwise.
#[verifier::external_body]
fn u16_ct_eq(a: &u16, b: &u16) -> (r: u8)
    ensures
        r == (if *a == *b { 1u8 } else { 0u8 }),
{
    a.ct_eq(b).unwrap_u8()
}

/// Relies on subtle's `ConstantTimeGreater` for `u16`: the `Choice` unwraps
/// to 1 when `a > b` and to 0 otherwise.
#[verifier::external_body]
fn u16_ct_gt(a: &u16, b: &u16) -> (r: u8)
    ensures
        r == (if *a > *b { 1u8 } else { 0u8 }),
{
    a.ct_gt(b).unwrap_u8()
}

/// Relies on subtle's `ConstantTimeEq` for `u32`: the `Choice` unwraps to 1
/// when the two are equal and to 0 otherwise.
#[verifier::external_body]
fn u32_ct_eq(a: &u32, b: &u32) -> (r: u8)
    ensures
        r == (if *a == *b { 1u8 } else { 0u8 }),
{
    a.ct_eq(b).unwrap_u8()
}

/// Relies on subtle's `ConstantTimeGreater` for `u32`: the `Choice` unwraps
/// to 1 when `a > b` and to 0 otherwise.
#[verifier::external_body]
fn u32_ct_gt(a: &u32, b: &u32) -> (r: u8)
    ensures
        r == (if *a > *b { 1u8 } else { 0u8 }),
{
    a.ct_gt(b).unwrap_u8()
}

/// Relies on subtle's `ConstantTimeEq` for `u64`: the `Choice` unwraps to 1
/// when the two are equal and to 0 otherwise.
#[verifier::external_body]
fn u64_ct_eq(a: &u64, b: &u64) -> (r: u8)
    ensures
        r == (if *a == *b { 1u8 } else { 0u8 }),
{
    a.ct_eq(b).unwrap_u8()
}

/// Relies on subtle's `ConstantTimeGreater` for `u64`: the `Choice` unwraps
/// to 1 when `a > b` and to 0 otherwise.
#[verifier::external_body]
fn u64_ct_gt(a: &u64, b: &u64) -> (r: u8)
    ensures
        r == (if *a > *b { 1u8 } else { 0u8 }),
{
    a.ct_gt(b).unwrap_u8()
}

impl CtLeaf for u8 {
    open spec fn key(&self) -> int {
        *self as int
    }

    fn leaf_eq(&self, other: &u8) -> (r: Mask) {
        Mask::from_bit(u8_ct_eq(self, other))
    }

    fn leaf_gt(&self, other: &u8) -> (r: Mask) {
        Mask::from_bit(u8_ct_gt(self, other))
    }
}

impl CtLeaf for u16 {
    open spec fn key(&self) -> int {
        *self as int
    }

    fn leaf_eq(&self, other: &u16) -> (r: Mask) {
        Mask::from_bit(u16_ct_eq(self, other))
    }

    fn leaf_gt(&self, other: &u16) -> (r: Mask) {
        Mask::from_bit(u16_ct_gt(self, other))
    }
}

impl CtLeaf for u32 {
    open spec fn key(&self) -> int {
        *self as int
    }

    fn leaf_eq(&self, other: &u32) -> (r: Mask) {
        Mask::from_bit(u32_ct_eq(self, other))
    }

    fn leaf_gt(&self, other: &u32) -> (r: Mask) {
        Mask::from_bit(u32_ct_gt(self, other))
    }
}

impl CtLeaf for u64 {
    open spec fn key(&self) -> int {
        *self as int
    }

    fn leaf_eq(&self, other: &u64) -> (r: Mask) {
        Mask::from_bit(u64_ct_eq(self, other))
    }

    fn leaf_gt(&self, other: &u64) -> (r: Mask) {
        Mask::from_bit(u64_ct_gt(self, other))
    }
}

} // verus!

//! Whole-value comparisons of composites whose fields share one leaf type,
//! given as slices in field order, and the adapter to a three-way ordering.

use vstd::prelude::*;

verus! {

use core::cmp::Ordering;
use crate::iterated::{IteratedEq, IteratedGreater, IteratedLess};
use crate::leaf::CtLeaf;
use crate::mask::Mask;
use crate::order::{lex_cmp, lemma_lex_cmp_equal};

/// The keys of a sequence of fields, in order.
pub open spec fn keys<T: CtLeaf>(s: Seq<T>) -> Seq<int> {
    s.map_values(|x: T| x.key())
}

/// Turns the equal and greater-than masks of one comparison into an
/// ordering. Here the outcome becomes public, so branching on it is fine.
pub fn order_of(eq: Mask, gt: Mask) -> (r: Ordering)
    ensures
        r == (if eq@ {
            Ordering::Equal
        } else if gt@ {
            Ordering::Greater
        } else {
            Ordering::Less
        }),
{
    if eq.to_bool() {
        Ordering::Equal
    } else if gt.to_bool() {
        Ordering::Greater
    } else {
        Ordering::Less
    }
}

/// Every field of `a` equals the field of `b` at the same position.
pub fn ct_eq<T: CtLeaf>(a: &[T], b: &[T]) -> (r: Mask)
    requires
        a@.len() == b@.len(),
    ensures
        r@ == (keys(a@) == keys(b@)),
{
    let mut acc = IteratedEq::initiate();
    let mut i: usize = 0;
    while i < a.len()
        invariant
            i <= a@.len(),
            a@.len() == b@.len(),
            acc.lhs() == keys(a@).take(i as int),
            acc.rhs() == keys(b@).take(i as int),
        decreases a@.len() - i,
    {
        acc.apply_eq(&a[i], &b[i]);
        assert(keys(a@).take(i + 1) =~= keys(a@).take(i as int).push(a@[i as int].key()));
        assert(keys(b@).take(i + 1) =~= keys(b@).take(i as int).push(b@[i as int].key()));
        i += 1;
    }
    assert(keys(a@).take(i as int) =~= keys(a@));
    assert(keys(b@).take(i as int) =~= keys(b@));
    acc.extract_result()
}

/// `a` is lexicographically greater than `b`: at the first position where
/// their fields differ, the field of `a` is greater.
pub fn ct_gt<T: CtLeaf>(a: &[T], b: &[T]) -> (r: Mask)
    requires
        a@.len() == b@.len(),
    ensures
        r@ == (lex_cmp(keys(a@), keys(b@)) == Ordering::Greater),
{
    let mut acc = IteratedGreater::initiate();
    let mut i: usize = 0;
    while i < a.len()
        invariant
            i <= a@.len(),
            a@.len() == b@.len(),
            acc.lhs() == keys(a@).take(i as int),
            acc.rhs() == keys(b@).take(i as int),
        decreases a@.len() - i,
    {
        acc.apply_gt(&a[i], &b[i]);
        assert(keys(a@).take(i + 1) =~= keys(a@).take(i as int).push(a@[i as int].key()));
        assert(keys(b@).take(i + 1) =~= keys(b@).take(i as int).push(b@[i as int].key()));
        i += 1;
    }
    assert(keys(a@).take(i as int) =~= keys(a@));
    assert(keys(b@).take(i as int) =~= keys(b@));
    acc.extract_result()
}

/// `a` is lexicographically less than `b`: at the first position where
/// their fields differ, the field of `a` is less.
pub fn ct_lt<T: CtLeaf>(a: &[T], b: &[T]) -> (r: Mask)
    requires
        a@.len() == b@.len(),
    ensures
        r@ == (lex_cmp(keys(a@), keys(b@)) == Ordering::Less),
{
    let mut acc = IteratedLess::initiate();
    let mut i: usize = 0;
    while i < a.len()
        invariant
            i <= a@.len(),
            a@.len() == b@.len(),
            acc.lhs() == keys(a@).take(i as int),
            acc.rhs() == keys(b@).take(i as int),
        decreases a@.len() - i,
    {
        acc.apply_lt(&a[i], &b[i]);
        assert(keys(a@).take(i + 1) =~= keys(a@).take(i as int).push(a@[i as int].key()));
        assert(keys(b@).take(i + 1) =~= keys(b@).take(i as int).push(b@[i as int].key()));
        i += 1;
    }
    assert(keys(a@).take(i as int) =~= keys(a@));
    assert(keys(b@).take(i as int) =~= keys(b@));
    acc.extract_result()
}

/// The lexicographic ordering of `a` against `b`.
pub fn ct_cmp<T: CtLeaf>(a: &[T], b: &[T]) -> (r: Ordering)
    requires
        a@.len() == b@.len(),
    ensures
        r == lex_cmp(keys(a@), keys(b@)),
{
    let eq = ct_eq(a, b);
    let gt = ct_gt(a, b);
    proof {
        lemma_lex_cmp_equal(keys(a@), keys(b@));
    }
    order_of(eq, gt)
}

/// The lexicographic ordering of `a` against `b`, which always exists.
pub fn ct_partial_cmp<T: CtLeaf>(a: &[T], b: &[T]) -> (r: Option<Ordering>)
    requires
        a@.len() == b@.len(),
    ensures
        r == Some(lex_cmp(keys(a@), keys(b@))),
{
    Some(ct_cmp(a, b))
}

} // verus!

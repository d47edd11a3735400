//! Laws that the composed comparisons obey.
//!
//! Over the key sequences of two composites `a` and `b` of the same shape,
//! equality is `a == b`, greater-than is `lex_cmp(a, b) == Greater` and
//! less-than is `lex_cmp(a, b) == Less`: these are what the accumulators of
//! `iterated` and the functions of `composite` report.

use vstd::prelude::*;

verus! {

use core::cmp::Ordering;
use crate::order::{key_cmp, lex_cmp, lemma_lex_cmp_equal, lemma_lex_cmp_swap};

/// A composite is equal to itself, and neither greater nor less than itself.
pub proof fn lemma_reflexive(a: Seq<int>)
    ensures
        a == a,
        lex_cmp(a, a) != Ordering::Greater,
        lex_cmp(a, a) != Ordering::Less,
{
    lemma_lex_cmp_equal(a, a);
}

/// For two composites of the same shape exactly one of equal, greater and
/// less holds.
pub proof fn lemma_trichotomy(a: Seq<int>, b: Seq<int>)
    requires
        a.len() == b.len(),
    ensures
        a == b || lex_cmp(a, b) == Ordering::Greater || lex_cmp(a, b) == Ordering::Less,
        !(a == b && lex_cmp(a, b) == Ordering::Greater),
        !(a == b && lex_cmp(a, b) == Ordering::Less),
        !(lex_cmp(a, b) == Ordering::Greater && lex_cmp(a, b) == Ordering::Less),
{
    lemma_lex_cmp_equal(a, b);
}

/// `a` is greater than `b` exactly when `b` is less than `a`.
pub proof fn lemma_antisymmetric(a: Seq<int>, b: Seq<int>)
    requires
        a.len() == b.len(),
    ensures
        (lex_cmp(a, b) == Ordering::Greater) == (lex_cmp(b, a) == Ordering::Less),
{
    lemma_lex_cmp_swap(a, b);
}

/// When the first field at which `a` and `b` differ is greater in `a`, then
/// `a` is greater than `b`, whatever the later fields hold.
pub proof fn lemma_first_difference_decides(a: Seq<int>, b: Seq<int>, k: int)
    requires
        a.len() == b.len(),
        0 <= k < a.len(),
        a.take(k) == b.take(k),
        a[k] > b[k],
    ensures
        lex_cmp(a, b) == Ordering::Greater,
    decreases k,
{
    if k == 0 {
        assert(key_cmp(a[0], b[0]) == Ordering::Greater);
    } else {
        assert(a[0] == a.take(k)[0]);
        assert(b[0] == b.take(k)[0]);
        assert(a.drop_first().take(k - 1) =~= a.take(k).drop_first());
        assert(b.drop_first().take(k - 1) =~= b.take(k).drop_first());
        lemma_first_difference_decides(a.drop_first(), b.drop_first(), k - 1);
    }
}

/// Two composites without fields are equal, and neither is greater or less.
pub proof fn lemma_no_fields(a: Seq<int>, b: Seq<int>)
    requires
        a.len() == 0,
        b.len() == 0,
    ensures
        a == b,
        lex_cmp(a, b) == Ordering::Equal,
{
    assert(a =~= b);
}

} // verus!

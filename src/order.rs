//! The lexicographic order on sequences of field keys, and the laws it obeys.

use vstd::prelude::*;

verus! {

use core::cmp::Ordering;

/// How one key compares with another.
pub open spec fn key_cmp(x: int, y: int) -> Ordering {
    if x == y {
        Ordering::Equal
    } else if x > y {
        Ordering::Greater
    } else {
        Ordering::Less
    }
}

/// The opposite outcome: `Less` and `Greater` trade places.
pub open spec fn reversed(o: Ordering) -> Ordering {
    match o {
        Ordering::Less => Ordering::Greater,
        Ordering::Equal => Ordering::Equal,
        Ordering::Greater => Ordering::Less,
    }
}

/// Lexicographic comparison of two key sequences of the same length: the
/// first position at which they differ decides, and sequences that never
/// differ are equal.
pub open spec fn lex_cmp(a: Seq<int>, b: Seq<int>) -> Ordering
    decreases a.len(),
{
    if a.len() == 0 || b.len() == 0 {
        Ordering::Equal
    } else if a[0] != b[0] {
        key_cmp(a[0], b[0])
    } else {
        lex_cmp(a.drop_first(), b.drop_first())
    }
}

/// Appending one more pair of keys: a decided outcome stands, and an
/// undecided one is settled by the new pair.
pub proof fn lemma_lex_cmp_push(a: Seq<int>, b: Seq<int>, x: int, y: int)
    requires
        a.len() == b.len(),
    ensures
        lex_cmp(a.push(x), b.push(y)) == (if lex_cmp(a, b) == Ordering::Equal {
            key_cmp(x, y)
        } else {
            lex_cmp(a, b)
        }),
    decreases a.len(),
{
    if a.len() == 0 {
        assert(a.push(x).drop_first().len() == 0);
        assert(b.push(y).drop_first().len() == 0);
    } else {
        assert(a.push(x)[0] == a[0]);
        assert(b.push(y)[0] == b[0]);
        assert(a.push(x).drop_first() =~= a.drop_first().push(x));
        assert(b.push(y).drop_first() =~= b.drop_first().push(y));
        lemma_lex_cmp_push(a.drop_first(), b.drop_first(), x, y);
    }
}

/// Two key sequences of the same length compare `Equal` exactly when they
/// are the same sequence.
pub proof fn lemma_lex_cmp_equal(a: Seq<int>, b: Seq<int>)
    requires
        a.len() == b.len(),
    ensures
        (lex_cmp(a, b) == Ordering::Equal) == (a == b),
    decreases a.len(),
{
    if a.len() == 0 {
        assert(a =~= b);
    } else if a[0] == b[0] {
        lemma_lex_cmp_equal(a.drop_first(), b.drop_first());
        if a.drop_first() == b.drop_first() {
            assert forall|i: int| 0 <= i < a.len() implies a[i] == b[i] by {
                if i > 0 {
                    assert(a[i] == a.drop_first()[i - 1]);
                    assert(b[i] == b.drop_first()[i - 1]);
                }
            }
            assert(a =~= b);
        } else {
            assert(a.drop_first() != b.drop_first());
            if a == b {
                assert(a.drop_first() =~= b.drop_first());
            }
        }
    }
}

/// Swapping the operands reverses the outcome.
pub proof fn lemma_lex_cmp_swap(a: Seq<int>, b: Seq<int>)
    requires
        a.len() == b.len(),
    ensures
        lex_cmp(b, a) == reversed(lex_cmp(a, b)),
    decreases a.len(),
{
    if a.len() > 0 && a[0] == b[0] {
        lemma_lex_cmp_swap(a.drop_first(), b.drop_first());
    }
}

} // verus!

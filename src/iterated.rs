//! Accumulators that compose leaf comparisons field by field.
//!
//! Each accumulator is started with `initiate`, fed one pair of fields per
//! `apply_*` call, in field order, and read with `extract_result`. Every call
//! performs the same operations whatever the fields hold: there is no early
//! exit and no branch on a comparison outcome.

use vstd::prelude::*;

verus! {

use core::cmp::Ordering;
use crate::leaf::CtLeaf;
use crate::mask::Mask;
use crate::order::{lex_cmp, lemma_lex_cmp_equal, lemma_lex_cmp_push};

/// Equality of two composites: the AND of the equality of each field pair.
pub struct IteratedEq {
    tied: Mask,
    lhs: Ghost<Seq<int>>,
    rhs: Ghost<Seq<int>>,
}

impl IteratedEq {
    #[verifier::type_invariant]
    spec fn inv(self) -> bool {
        &&& self.lhs@.len() == self.rhs@.len()
        &&& self.tied@ == (self.lhs@ == self.rhs@)
    }

    /// Keys of the left-hand fields applied so far, in order.
    pub closed spec fn lhs(&self) -> Seq<int> {
        self.lhs@
    }

    /// Keys of the right-hand fields applied so far, in order.
    pub closed spec fn rhs(&self) -> Seq<int> {
        self.rhs@
    }

    /// An accumulator that has seen no field: everything so far is equal.
    pub fn initiate() -> (r: IteratedEq)
        ensures
            r.lhs() == Seq::<int>::empty(),
            r.rhs() == Seq::<int>::empty(),
    {
        IteratedEq { tied: Mask::set(), lhs: Ghost(Seq::empty()), rhs: Ghost(Seq::empty()) }
    }

    /// Folds in one more field pair.
    pub fn apply_eq<T: CtLeaf>(&mut self, a: &T, b: &T)
        ensures
            final(self).lhs() == old(self).lhs().push(a.key()),
            final(self).rhs() == old(self).rhs().push(b.key()),
    {
        proof {
            use_type_invariant(&*self);
        }
        let eq = a.leaf_eq(b);
        let tied = self.tied.and(eq);
        let ghost lhs = self.lhs@.push(a.key());
        let ghost rhs = self.rhs@.push(b.key());
        proof {
            lemma_lex_cmp_equal(self.lhs@, self.rhs@);
            lemma_lex_cmp_equal(lhs, rhs);
            lemma_lex_cmp_push(self.lhs@, self.rhs@, a.key(), b.key());
        }
        *self = IteratedEq { tied, lhs: Ghost(lhs), rhs: Ghost(rhs) };
    }

    /// Set exactly when every field pair applied so far was equal.
    pub fn extract_result(&self) -> (r: Mask)
        ensures
            r@ == (self.lhs() == self.rhs()),
    {
        proof {
            use_type_invariant(self);
        }
        self.tied
    }
}

/// Lexicographic greater-than of two composites.
///
/// `tied` records that every field so far was equal, and `greater` latches
/// once a field is greater while all earlier ones were tied.
pub struct IteratedGreater {
    tied: Mask,
    greater: Mask,
    lhs: Ghost<Seq<int>>,
    rhs: Ghost<Seq<int>>,
}

impl IteratedGreater {
    #[verifier::type_invariant]
    spec fn inv(self) -> bool {
        &&& self.lhs@.len() == self.rhs@.len()
        &&& self.tied@ == (lex_cmp(self.lhs@, self.rhs@) == Ordering::Equal)
        &&& self.greater@ == (lex_cmp(self.lhs@, self.rhs@) == Ordering::Greater)
    }

    /// Keys of the left-hand fields applied so far, in order.
    pub closed spec fn lhs(&self) -> Seq<int> {
        self.lhs@
    }

    /// Keys of the right-hand fields applied so far, in order.
    pub closed spec fn rhs(&self) -> Seq<int> {
        self.rhs@
    }

    /// An accumulator that has seen no field: tied, and not greater.
    pub fn initiate() -> (r: IteratedGreater)
        ensures
            r.lhs() == Seq::<int>::empty(),
            r.rhs() == Seq::<int>::empty(),
    {
        IteratedGreater {
            tied: Mask::set(),
            greater: Mask::unset(),
            lhs: Ghost(Seq::empty()),
            rhs: Ghost(Seq::empty()),
        }
    }

    /// Folds in one more field pair: it can make the result greater only if
    /// all earlier fields were tied, and it keeps the tie only if it is equal.
    pub fn apply_gt<T: CtLeaf>(&mut self, a: &T, b: &T)
        ensures
            final(self).lhs() == old(self).lhs().push(a.key()),
            final(self).rhs() == old(self).rhs().push(b.key()),
    {
        proof {
            use_type_invariant(&*self);
        }
        let eq = a.leaf_eq(b);
        let gt = a.leaf_gt(b);
        let greater = self.greater.or(self.tied.and(gt));
        let tied = self.tied.and(eq);
        let ghost lhs = self.lhs@.push(a.key());
        let ghost rhs = self.rhs@.push(b.key());
        proof {
            lemma_lex_cmp_push(self.lhs@, self.rhs@, a.key(), b.key());
        }
        *self = IteratedGreater { tied, greater, lhs: Ghost(lhs), rhs: Ghost(rhs) };
    }

    /// Set exactly when the applied fields of the left-hand side are
    /// lexicographically greater than those of the right-hand side.
    pub fn extract_result(&self) -> (r: Mask)
        ensures
            r@ == (lex_cmp(self.lhs(), self.rhs()) == Ordering::Greater),
    {
        proof {
            use_type_invariant(self);
        }
        self.greater
    }
}

/// Lexicographic less-than of two composites, built like `IteratedGreater`
/// with each field's less-than taken as greater-than on the swapped pair.
pub struct IteratedLess {
    tied: Mask,
    less: Mask,
    lhs: Ghost<Seq<int>>,
    rhs: Ghost<Seq<int>>,
}

impl IteratedLess {
    #[verifier::type_invariant]
    spec fn inv(self) -> bool {
        &&& self.lhs@.len() == self.rhs@.len()
        &&& self.tied@ == (lex_cmp(self.lhs@, self.rhs@) == Ordering::Equal)
        &&& self.less@ == (lex_cmp(self.lhs@, self.rhs@) == Ordering::Less)
    }

    /// Keys of the left-hand fields applied so far, in order.
    pub closed spec fn lhs(&self) -> Seq<int> {
        self.lhs@
    }

    /// Keys of the right-hand fields applied so far, in order.
    pub closed spec fn rhs(&self) -> Seq<int> {
        self.rhs@
    }

    /// An accumulator that has seen no field: tied, and not less.
    pub fn initiate() -> (r: IteratedLess)
        ensures
            r.lhs() == Seq::<int>::empty(),
            r.rhs() == Seq::<int>::empty(),
    {
        IteratedLess {
            tied: Mask::set(),
            less: Mask::unset(),
            lhs: Ghost(Seq::empty()),
            rhs: Ghost(Seq::empty()),
        }
    }

    /// Folds in one more field pair: it can make the result less only if all
    /// earlier fields were tied, and it keeps the tie only if it is equal.
    pub fn apply_lt<T: CtLeaf>(&mut self, a: &T, b: &T)
        ensures
            final(self).lhs() == old(self).lhs().push(a.key()),
            final(self).rhs() == old(self).rhs().push(b.key()),
    {
        proof {
            use_type_invariant(&*self);
        }
        let eq = a.leaf_eq(b);
        let lt = b.leaf_gt(a);
        let less = self.less.or(self.tied.and(lt));
        let tied = self.tied.and(eq);
        let ghost lhs = self.lhs@.push(a.key());
        let ghost rhs = self.rhs@.push(b.key());
        proof {
            lemma_lex_cmp_push(self.lhs@, self.rhs@, a.key(), b.key());
        }
        *self = IteratedLess { tied, less, lhs: Ghost(lhs), rhs: Ghost(rhs) };
    }

    /// Set exactly when the applied fields of the left-hand side are
    /// lexicographically less than those of the right-hand side.
    pub fn extract_result(&self) -> (r: Mask)
        ensures
            r@ == (lex_cmp(self.lhs(), self.rhs()) == Ordering::Less),
    {
        proof {
            use_type_invariant(self);
        }
        self.less
    }
}

} // verus!

//! Traits to provide `.eval()`.
//!
//! `Typed` declares the output type together with its mathematical model:
//! `evaluated` says which value a tree folds to, and `wf` says when every
//! native operation the fold applies is defined and in range.  `Own` folds
//! a tree by consuming it, `Ref` folds it through a reference, and `Eval`
//! bundles the two.  Both modes promise the same result, `evaluated`.

use vstd::prelude::*;

verus! {

/// Output type of evaluation, with the mathematical model of the fold.
pub trait Typed: Sized {
    /// Output of evaluation (i.e. `eval() -> ???`).
    type Evaluated;

    /// Whether every native operation applied by the fold is defined and
    /// in range for the operand values this tree produces.
    spec fn wf(&self) -> bool;

    /// The value this tree folds to.
    spec fn evaluated(&self) -> Self::Evaluated;
}

/// Implementation taking `self` (moved).
pub trait Own: Typed {
    /// Fold an expression into a value.
    fn eval(self) -> (r: Self::Evaluated)
        requires
            self.wf(),
        ensures
            r == self.evaluated(),
    ;
}

/// Implementation taking `&self` (not moved).
pub trait Ref: Typed {
    /// Fold an expression into a value without consuming the expression.
    fn eval(&self) -> (r: Self::Evaluated)
        requires
            self.wf(),
        ensures
            r == self.evaluated(),
    ;
}

/// Trait analogous to a function: an output type and a callable, `eval`,
/// in both the consuming and the non-consuming mode.
pub trait Eval: Own + Ref {}

/// Consuming vs. non-consuming equivalence: folding a tree through a
/// reference and then folding the very same tree by consuming it yields
/// one and the same value, the tree's `evaluated` model.  The
/// non-consuming fold may be repeated any number of times first; it
/// leaves the tree untouched, so every repetition returns this value.
pub fn eval_ref_matches_eval_owned<T: Eval>(t: T) -> (r: (T::Evaluated, T::Evaluated))
    requires
        t.wf(),
    ensures
        r.0 == r.1,
        r.0 == t.evaluated(),
{
    let by_reference = Ref::eval(&t);
    let by_consumption = Own::eval(t);
    (by_reference, by_consumption)
}

/// Plain eager addition of two machine integers, for contrast with the
/// lazy `Add` node: applying this to two evaluated trees equals
/// evaluating the tree that adds them.
pub fn shit(a: i32, b: i32) -> (r: i32)
    requires
        i32::MIN <= a + b <= i32::MAX,
    ensures
        r == a + b,
{
    a + b
}

} // verus!

//! Traits to provide `.grad()`: symbolic differentiation.
//!
//! `Typed` declares the derivative's type together with its mathematical
//! model: `differentiated` says which tree differentiation builds, with
//! respect to the identity token of a chosen leaf.  `Own` differentiates
//! by consuming the tree, `Ref` through a reference, and `Grad` bundles
//! the two.  The derivative is itself a fully formed, evaluable tree,
//! never a bare scalar, so higher-order derivatives are obtained by
//! differentiating the result again.

use vstd::prelude::*;

verus! {

/// Derivative type, with the mathematical model of differentiation.
pub trait Typed: crate::eval::Eval {
    /// Output of differentiation (i.e. `grad(x) -> ???`), itself evaluable.
    type Differentiated: crate::eval::Eval;

    /// The derivative tree of this tree with respect to the leaf whose
    /// identity token is `x`.
    spec fn differentiated(&self, x: u64) -> Self::Differentiated;
}

/// Implementation taking `self` (moved).
pub trait Own: Typed {
    /// Differentiate an expression with respect to the leaf bound under
    /// the identity token `x`, consuming the expression.
    fn grad(self, x: u64) -> (r: Self::Differentiated)
        ensures
            r == self.differentiated(x),
    ;
}

/// Implementation taking `&self` (not moved).
pub trait Ref: Typed {
    /// Differentiate an expression with respect to the leaf bound under
    /// the identity token `x`, without consuming the expression.
    fn grad(&self, x: u64) -> (r: Self::Differentiated)
        ensures
            r == self.differentiated(x),
    ;
}

/// Automatically differentiate an expression: both modes, one model.
pub trait Grad: Own + Ref {}

} // verus!

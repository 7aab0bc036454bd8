//! Expression template: the uniform tree wrapper, and the entry point
//! that binds a value as a leaf.
//!
//! `Expr` owns exactly one child node and forwards evaluation and
//! differentiation to it.  It exists so that operator composition has a
//! single anchor type: the operator impls in [`crate::ops`] are written
//! for `Expr`, and combining wrapped trees yields new wrapped trees.

use vstd::prelude::*;

use crate::eval;
use crate::grad;
use crate::leaf::{Leaf, Var};

verus! {

/// Expression template!  Here it is!  Owns one child node; building a
/// new node from existing wrapped expressions consumes them.
#[derive(Debug)]
pub struct Expr<T>(pub T);

impl<T: eval::Typed> eval::Typed for Expr<T> {
    type Evaluated = T::Evaluated;

    open spec fn wf(&self) -> bool {
        self.0.wf()
    }

    open spec fn evaluated(&self) -> Self::Evaluated {
        self.0.evaluated()
    }
}

impl<T: eval::Own> eval::Own for Expr<T> {
    fn eval(self) -> (r: Self::Evaluated) {
        self.0.eval()
    }
}

impl<T: eval::Ref> eval::Ref for Expr<T> {
    fn eval(&self) -> (r: Self::Evaluated) {
        (&self.0).eval()
    }
}

impl<T: eval::Eval> eval::Eval for Expr<T> {}

impl<T: grad::Typed> grad::Typed for Expr<T> {
    type Differentiated = Expr<T::Differentiated>;

    open spec fn differentiated(&self, x: u64) -> Self::Differentiated {
        Expr(self.0.differentiated(x))
    }
}

impl<T: grad::Own> grad::Own for Expr<T> {
    fn grad(self, x: u64) -> (r: Self::Differentiated) {
        Expr(self.0.grad(x))
    }
}

impl<T: grad::Ref> grad::Ref for Expr<T> {
    fn grad(&self, x: u64) -> (r: Self::Differentiated) {
        Expr((&self.0).grad(x))
    }
}

impl<T: grad::Grad> grad::Grad for Expr<T> {}

/// Treat this value as the basis of an expression tree rather than as a
/// value to evaluate eagerly.  The token `id` is the variable's identity
/// for differentiation: two leaves match exactly when their tokens are
/// equal, whatever their values.
pub fn var<T: Leaf>(id: u64, value: T) -> (r: Expr<Var<T>>)
    ensures
        r == (Expr(Var { id, value })),
{
    Expr(Var { id, value })
}

} // verus!

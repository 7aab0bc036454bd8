//! The algebraic laws of the engine, stated over the mathematical models
//! (`evaluated`, `differentiated`) and proved once and for all.

use vstd::prelude::*;

use crate::eval::Typed;
use crate::grad::Typed as GradTyped;
use crate::leaf::{Const, Leaf, Var};
use crate::ops;

verus! {

/// Round-trip identity: a leaf bound to `value` folds back to `value`
/// unchanged, under every identity token.
pub proof fn lemma_leaf_round_trip<T: Leaf>(id: u64, value: T)
    ensures
        (Var { id, value }).evaluated() == value,
{
}

/// Double negation identity: negating a tree twice evaluates to the same
/// value as the tree itself.  The one input left out is a tree folding
/// to `i32::MIN`, whose negation the machine integers cannot hold.
pub proof fn lemma_double_negation<T: Typed<Evaluated = i32>>(t: T)
    requires
        t.evaluated() != i32::MIN,
    ensures
        (ops::Neg(ops::Neg(t))).evaluated() == t.evaluated(),
{
}

/// Derivative of self is unit: a leaf differentiated with respect to its
/// own identity token evaluates to the analogue of 1.
pub proof fn lemma_grad_leaf_self<T: Leaf>(id: u64, value: T)
    ensures
        (Var { id, value }).differentiated(id).evaluated() == T::unit_spec(),
{
}

/// Derivative of an unrelated variable is zero: a leaf differentiated
/// with respect to any other identity token evaluates to the analogue of
/// 0, even when the two variables are bound to equal values.
pub proof fn lemma_grad_leaf_other<T: Leaf>(id: u64, value: T, x: u64)
    requires
        x != id,
    ensures
        (Var { id, value }).differentiated(x).evaluated() == T::zero_spec(),
{
}

/// Linearity of the addition derivative: the sum of two distinct leaves,
/// differentiated with respect to either one, evaluates to 1, whatever
/// the bound values.
pub proof fn lemma_grad_add_linear(a: Var<i32>, b: Var<i32>)
    requires
        a.id != b.id,
    ensures
        (ops::Add(a, b)).differentiated(a.id).evaluated() == 1i32,
        (ops::Add(a, b)).differentiated(b.id).evaluated() == 1i32,
{
}

/// Linearity of the subtraction derivative: the difference of two
/// distinct leaves evaluates to 1 when differentiated with respect to
/// the left leaf and to -1 with respect to the right one.
pub proof fn lemma_grad_sub_linear(a: Var<i32>, b: Var<i32>)
    requires
        a.id != b.id,
    ensures
        (ops::Sub(a, b)).differentiated(a.id).evaluated() == 1i32,
        (ops::Sub(a, b)).differentiated(b.id).evaluated() == -1i32,
{
}

/// Second-order derivative of a negated leaf is zero, with respect to
/// any pair of identity tokens.
pub proof fn lemma_second_grad_neg_leaf(v: Var<i32>, x: u64, y: u64)
    ensures
        (ops::Neg(v)).differentiated(x).differentiated(y).evaluated() == 0i32,
{
}

/// Differentiating a negated constant yields the negated zero constant,
/// whose value is zero; so after the second derivative every further
/// derivative of a negated leaf stays at zero.
pub proof fn lemma_grad_neg_const_fixed_point(c: Const<i32>, x: u64)
    ensures
        (ops::Neg(c)).differentiated(x) == (ops::Neg(Const(0i32))),
        (ops::Neg(Const(0i32))).evaluated() == 0i32,
{
}

} // verus!

//! Leaves: bound variables and constants, with analogies to 0 and 1.
//!
//! A [`Var`] binds one scalar value as a differentiable variable.  Its
//! identity for differentiation is an explicit token chosen at binding
//! time, so that two variables bound to equal values stay distinct.  A
//! [`Const`] carries the `unit` or `zero` that differentiation's base
//! case produces; its own derivative is `zero` again.

use vstd::prelude::*;

use crate::eval;
use crate::grad;

verus! {

/// Analogies to 0 (`zero`) and 1 (`unit`) in a leaf type's algebra.
pub trait Leaf: Sized + Copy {
    /// Analogous to 1, as a specification-level value.
    spec fn unit_spec() -> Self;

    /// Analogous to 0, as a specification-level value.
    spec fn zero_spec() -> Self;

    /// Analogous to 1.
    fn unit() -> (r: Self)
        ensures
            r == Self::unit_spec(),
    ;

    /// Analogous to 0.
    fn zero() -> (r: Self)
        ensures
            r == Self::zero_spec(),
    ;
}

/// Not only a value but a unique identifier w.r.t. which we can
/// differentiate: the token `id` names the variable, independent of the
/// bound value.
#[derive(Debug)]
pub struct Var<T> {
    /// Identity token of the variable this leaf binds.
    pub id: u64,
    /// The bound value.
    pub value: T,
}

/// A constant leaf: holds the `unit` or `zero` that the derivative of a
/// variable folds to.  No identity token matches it, so its derivative
/// is the `zero` constant.
#[derive(Debug)]
pub struct Const<T>(pub T);

impl<T: Leaf> eval::Typed for Var<T> {
    type Evaluated = T;

    open spec fn wf(&self) -> bool {
        true
    }

    open spec fn evaluated(&self) -> T {
        self.value
    }
}

impl<T: Leaf> eval::Own for Var<T> {
    fn eval(self) -> (r: T) {
        self.value
    }
}

impl<T: Leaf> eval::Ref for Var<T> {
    fn eval(&self) -> (r: T) {
        self.value
    }
}

impl<T: Leaf> eval::Eval for Var<T> {}

impl<T: Leaf> eval::Typed for Const<T> {
    type Evaluated = T;

    open spec fn wf(&self) -> bool {
        true
    }

    open spec fn evaluated(&self) -> T {
        self.0
    }
}

impl<T: Leaf> eval::Own for Const<T> {
    fn eval(self) -> (r: T) {
        self.0
    }
}

impl<T: Leaf> eval::Ref for Const<T> {
    fn eval(&self) -> (r: T) {
        self.0
    }
}

impl<T: Leaf> eval::Eval for Const<T> {}

impl<T: Leaf> grad::Typed for Var<T> {
    type Differentiated = Const<T>;

    open spec fn differentiated(&self, x: u64) -> Const<T> {
        if x == self.id {
            Const(T::unit_spec())
        } else {
            Const(T::zero_spec())
        }
    }
}

impl<T: Leaf> grad::Own for Var<T> {
    fn grad(self, x: u64) -> (r: Const<T>) {
        if x == self.id {
            Const(T::unit())
        } else {
            Const(T::zero())
        }
    }
}

impl<T: Leaf> grad::Ref for Var<T> {
    fn grad(&self, x: u64) -> (r: Const<T>) {
        if x == self.id {
            Const(T::unit())
        } else {
            Const(T::zero())
        }
    }
}

impl<T: Leaf> grad::Grad for Var<T> {}

impl<T: Leaf> grad::Typed for Const<T> {
    type Differentiated = Const<T>;

    open spec fn differentiated(&self, x: u64) -> Const<T> {
        Const(T::zero_spec())
    }
}

impl<T: Leaf> grad::Own for Const<T> {
    fn grad(self, x: u64) -> (r: Const<T>) {
        Const(T::zero())
    }
}

impl<T: Leaf> grad::Ref for Const<T> {
    fn grad(&self, x: u64) -> (r: Const<T>) {
        Const(T::zero())
    }
}

impl<T: Leaf> grad::Grad for Const<T> {}

impl Leaf for i32 {
    open spec fn unit_spec() -> i32 {
        1
    }

    open spec fn zero_spec() -> i32 {
        0
    }

    fn unit() -> (r: i32) {
        1
    }

    fn zero() -> (r: i32) {
        0
    }
}

impl Leaf for bool {
    open spec fn unit_spec() -> bool {
        true
    }

    open spec fn zero_spec() -> bool {
        false
    }

    fn unit() -> (r: bool) {
        true
    }

    fn zero() -> (r: bool) {
        false
    }
}

impl Leaf for u8 {
    open spec fn unit_spec() -> u8 {
        1
    }

    open spec fn zero_spec() -> u8 {
        0
    }

    fn unit() -> (r: u8) {
        1
    }

    fn zero() -> (r: u8) {
        0
    }
}

impl Leaf for u16 {
    open spec fn unit_spec() -> u16 {
        1
    }

    open spec fn zero_spec() -> u16 {
        0
    }

    fn unit() -> (r: u16) {
        1
    }

    fn zero() -> (r: u16) {
        0
    }
}

impl Leaf for u32 {
    open spec fn unit_spec() -> u32 {
        1
    }

    open spec fn zero_spec() -> u32 {
        0
    }

    fn unit() -> (r: u32) {
        1
    }

    fn zero() -> (r: u32) {
        0
    }
}

impl Leaf for u64 {
    open spec fn unit_spec() -> u64 {
        1
    }

    open spec fn zero_spec() -> u64 {
        0
    }

    fn unit() -> (r: u64) {
        1
    }

    fn zero() -> (r: u64) {
        0
    }
}

impl Leaf for u128 {
    open spec fn unit_spec() -> u128 {
        1
    }

    open spec fn zero_spec() -> u128 {
        0
    }

    fn unit() -> (r: u128) {
        1
    }

    fn zero() -> (r: u128) {
        0
    }
}

impl Leaf for i8 {
    open spec fn unit_spec() -> i8 {
        1
    }

    open spec fn zero_spec() -> i8 {
        0
    }

    fn unit() -> (r: i8) {
        1
    }

    fn zero() -> (r: i8) {
        0
    }
}

impl Leaf for i16 {
    open spec fn unit_spec() -> i16 {
        1
    }

    open spec fn zero_spec() -> i16 {
        0
    }

    fn unit() -> (r: i16) {
        1
    }

    fn zero() -> (r: i16) {
        0
    }
}

impl Leaf for i64 {
    open spec fn unit_spec() -> i64 {
        1
    }

    open spec fn zero_spec() -> i64 {
        0
    }

    fn unit() -> (r: i64) {
        1
    }

    fn zero() -> (r: i64) {
        0
    }
}

impl Leaf for i128 {
    open spec fn unit_spec() -> i128 {
        1
    }

    open spec fn zero_spec() -> i128 {
        0
    }

    fn unit() -> (r: i128) {
        1
    }

    fn zero() -> (r: i128) {
        0
    }
}

} // verus!

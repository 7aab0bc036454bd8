//! Mathematical operations as trees.
//! Evaluation traverses depth-first and folds into a value.
//!
//! Each node type holds its operand sub-trees and implements evaluation
//! by applying the corresponding native operator to the evaluated
//! operands; the operator's specification (its domain `*_req` and its
//! result `*_spec`) comes from the vstd model of the std operator
//! traits.  The overloaded operators are anchored on [`Expr`], so
//! combining wrapped trees with the native syntax builds new wrapped
//! trees without evaluating anything.
//!
//! Differentiation rules exist for negation, addition and subtraction.
//! The product rule is deliberately deferred: it needs each operand's
//! evaluated form to combine with the other operand's derivative form,
//! which this type-level algebra does not provide a mechanism for.

use vstd::prelude::*;
use vstd::std_specs::ops::{
    AddSpec, AddSpecImpl, BitAndSpec, BitAndSpecImpl, BitOrSpec, BitOrSpecImpl, BitXorSpec,
    BitXorSpecImpl, DivSpec, DivSpecImpl, MulSpec, MulSpecImpl, NegSpec, NegSpecImpl, NotSpec,
    NotSpecImpl, RemSpec, RemSpecImpl, ShlSpec, ShlSpecImpl, ShrSpec, ShrSpecImpl, SubSpec,
    SubSpecImpl,
};

use crate::eval;
use crate::expr::Expr;
use crate::grad;

verus! {

/// Arithmetic negation (e.g. `-4`).
#[derive(Debug)]
pub struct Neg<T>(pub T);

impl<T: eval::Typed> eval::Typed for Neg<T> where
    T::Evaluated: NegSpec + core::ops::Neg<Output = T::Evaluated>,
{
    type Evaluated = T::Evaluated;

    open spec fn wf(&self) -> bool {
        &&& self.0.wf()
        &&& <T::Evaluated as NegSpec>::obeys_neg_spec()
        &&& self.0.evaluated().neg_req()
    }

    open spec fn evaluated(&self) -> Self::Evaluated {
        self.0.evaluated().neg_spec()
    }
}

impl<T: eval::Own> eval::Own for Neg<T> where
    T::Evaluated: NegSpec + core::ops::Neg<Output = T::Evaluated>,
{
    fn eval(self) -> (r: Self::Evaluated) {
        core::ops::Neg::neg(self.0.eval())
    }
}

impl<T: eval::Ref> eval::Ref for Neg<T> where
    T::Evaluated: NegSpec + core::ops::Neg<Output = T::Evaluated>,
{
    fn eval(&self) -> (r: Self::Evaluated) {
        core::ops::Neg::neg((&self.0).eval())
    }
}

impl<T: eval::Eval> eval::Eval for Neg<T> where
    T::Evaluated: NegSpec + core::ops::Neg<Output = T::Evaluated>,
{
}

impl<T: eval::Eval> core::ops::Neg for Expr<T> where
    T::Evaluated: NegSpec + core::ops::Neg<Output = T::Evaluated>,
{
    type Output = Expr<Neg<T>>;

    fn neg(self) -> (r: Self::Output) {
        Expr(Neg(self.0))
    }
}

impl<T: eval::Eval> NegSpecImpl for Expr<T> where
    T::Evaluated: NegSpec + core::ops::Neg<Output = T::Evaluated>,
{
    open spec fn obeys_neg_spec() -> bool {
        true
    }

    open spec fn neg_req(self) -> bool {
        true
    }

    open spec fn neg_spec(self) -> Self::Output {
        Expr(Neg(self.0))
    }
}

impl<T: grad::Typed> grad::Typed for Neg<T> where
    T::Evaluated: NegSpec + core::ops::Neg<Output = T::Evaluated>,
    <T::Differentiated as eval::Typed>::Evaluated: NegSpec + core::ops::Neg<
        Output = <T::Differentiated as eval::Typed>::Evaluated,
    >,
{
    type Differentiated = Neg<T::Differentiated>;

    open spec fn differentiated(&self, x: u64) -> Self::Differentiated {
        Neg(self.0.differentiated(x))
    }
}

impl<T: grad::Own> grad::Own for Neg<T> where
    T::Evaluated: NegSpec + core::ops::Neg<Output = T::Evaluated>,
    <T::Differentiated as eval::Typed>::Evaluated: NegSpec + core::ops::Neg<
        Output = <T::Differentiated as eval::Typed>::Evaluated,
    >,
{
    fn grad(self, x: u64) -> (r: Self::Differentiated) {
        Neg(self.0.grad(x))
    }
}

impl<T: grad::Ref> grad::Ref for Neg<T> where
    T::Evaluated: NegSpec + core::ops::Neg<Output = T::Evaluated>,
    <T::Differentiated as eval::Typed>::Evaluated: NegSpec + core::ops::Neg<
        Output = <T::Differentiated as eval::Typed>::Evaluated,
    >,
{
    fn grad(&self, x: u64) -> (r: Self::Differentiated) {
        Neg((&self.0).grad(x))
    }
}

impl<T: grad::Grad> grad::Grad for Neg<T> where
    T::Evaluated: NegSpec + core::ops::Neg<Output = T::Evaluated>,
    <T::Differentiated as eval::Typed>::Evaluated: NegSpec + core::ops::Neg<
        Output = <T::Differentiated as eval::Typed>::Evaluated,
    >,
{
}

/// Logical negation (e.g. `!true`).
#[derive(Debug)]
pub struct Not<T>(pub T);

impl<T: eval::Typed> eval::Typed for Not<T> where
    T::Evaluated: NotSpec + core::ops::Not<Output = T::Evaluated>,
{
    type Evaluated = T::Evaluated;

    open spec fn wf(&self) -> bool {
        &&& self.0.wf()
        &&& <T::Evaluated as NotSpec>::obeys_not_spec()
        &&& self.0.evaluated().not_req()
    }

    open spec fn evaluated(&self) -> Self::Evaluated {
        self.0.evaluated().not_spec()
    }
}

impl<T: eval::Own> eval::Own for Not<T> where
    T::Evaluated: NotSpec + core::ops::Not<Output = T::Evaluated>,
{
    fn eval(self) -> (r: Self::Evaluated) {
        core::ops::Not::not(self.0.eval())
    }
}

impl<T: eval::Ref> eval::Ref for Not<T> where
    T::Evaluated: NotSpec + core::ops::Not<Output = T::Evaluated>,
{
    fn eval(&self) -> (r: Self::Evaluated) {
        core::ops::Not::not((&self.0).eval())
    }
}

impl<T: eval::Eval> eval::Eval for Not<T> where
    T::Evaluated: NotSpec + core::ops::Not<Output = T::Evaluated>,
{
}

impl<T: eval::Eval> core::ops::Not for Expr<T> where
    T::Evaluated: NotSpec + core::ops::Not<Output = T::Evaluated>,
{
    type Output = Expr<Not<T>>;

    fn not(self) -> (r: Self::Output) {
        Expr(Not(self.0))
    }
}

impl<T: eval::Eval> NotSpecImpl for Expr<T> where
    T::Evaluated: NotSpec + core::ops::Not<Output = T::Evaluated>,
{
    open spec fn obeys_not_spec() -> bool {
        true
    }

    open spec fn not_req(self) -> bool {
        true
    }

    open spec fn not_spec(self) -> Self::Output {
        Expr(Not(self.0))
    }
}

/// Arithmetic addition (e.g. `a + b`).
#[derive(Debug)]
pub struct Add<L, R>(pub L, pub R);

impl<L: eval::Typed, R: eval::Typed> eval::Typed for Add<L, R> where
    L::Evaluated: AddSpec<R::Evaluated> + core::ops::Add<R::Evaluated, Output = L::Evaluated>,
{
    type Evaluated = L::Evaluated;

    open spec fn wf(&self) -> bool {
        &&& self.0.wf()
        &&& self.1.wf()
        &&& <L::Evaluated as AddSpec<R::Evaluated>>::obeys_add_spec()
        &&& self.0.evaluated().add_req(self.1.evaluated())
    }

    open spec fn evaluated(&self) -> Self::Evaluated {
        self.0.evaluated().add_spec(self.1.evaluated())
    }
}

impl<L: eval::Own, R: eval::Own> eval::Own for Add<L, R> where
    L::Evaluated: AddSpec<R::Evaluated> + core::ops::Add<R::Evaluated, Output = L::Evaluated>,
{
    fn eval(self) -> (r: Self::Evaluated) {
        let left = self.0.eval();
        let right = self.1.eval();
        core::ops::Add::add(left, right)
    }
}

impl<L: eval::Ref, R: eval::Ref> eval::Ref for Add<L, R> where
    L::Evaluated: AddSpec<R::Evaluated> + core::ops::Add<R::Evaluated, Output = L::Evaluated>,
{
    fn eval(&self) -> (r: Self::Evaluated) {
        let left = (&self.0).eval();
        let right = (&self.1).eval();
        core::ops::Add::add(left, right)
    }
}

impl<L: eval::Eval, R: eval::Eval> eval::Eval for Add<L, R> where
    L::Evaluated: AddSpec<R::Evaluated> + core::ops::Add<R::Evaluated, Output = L::Evaluated>,
{
}

impl<L: eval::Eval, R: eval::Eval> core::ops::Add<Expr<R>> for Expr<L> where
    L::Evaluated: AddSpec<R::Evaluated> + core::ops::Add<R::Evaluated, Output = L::Evaluated>,
{
    type Output = Expr<Add<L, R>>;

    fn add(self, rhs: Expr<R>) -> (r: Self::Output) {
        Expr(Add(self.0, rhs.0))
    }
}

impl<L: eval::Eval, R: eval::Eval> AddSpecImpl<Expr<R>> for Expr<L> where
    L::Evaluated: AddSpec<R::Evaluated> + core::ops::Add<R::Evaluated, Output = L::Evaluated>,
{
    open spec fn obeys_add_spec() -> bool {
        true
    }

    open spec fn add_req(self, rhs: Expr<R>) -> bool {
        true
    }

    open spec fn add_spec(self, rhs: Expr<R>) -> Self::Output {
        Expr(Add(self.0, rhs.0))
    }
}

impl<L: grad::Typed, R: grad::Typed> grad::Typed for Add<L, R> where
    L::Evaluated: AddSpec<R::Evaluated> + core::ops::Add<R::Evaluated, Output = L::Evaluated>,
    <L::Differentiated as eval::Typed>::Evaluated: AddSpec<
        <R::Differentiated as eval::Typed>::Evaluated,
    > + core::ops::Add<
        <R::Differentiated as eval::Typed>::Evaluated,
        Output = <L::Differentiated as eval::Typed>::Evaluated,
    >,
{
    type Differentiated = Add<L::Differentiated, R::Differentiated>;

    open spec fn differentiated(&self, x: u64) -> Self::Differentiated {
        Add(self.0.differentiated(x), self.1.differentiated(x))
    }
}

impl<L: grad::Own, R: grad::Own> grad::Own for Add<L, R> where
    L::Evaluated: AddSpec<R::Evaluated> + core::ops::Add<R::Evaluated, Output = L::Evaluated>,
    <L::Differentiated as eval::Typed>::Evaluated: AddSpec<
        <R::Differentiated as eval::Typed>::Evaluated,
    > + core::ops::Add<
        <R::Differentiated as eval::Typed>::Evaluated,
        Output = <L::Differentiated as eval::Typed>::Evaluated,
    >,
{
    fn grad(self, x: u64) -> (r: Self::Differentiated) {
        Add(self.0.grad(x), self.1.grad(x))
    }
}

impl<L: grad::Ref, R: grad::Ref> grad::Ref for Add<L, R> where
    L::Evaluated: AddSpec<R::Evaluated> + core::ops::Add<R::Evaluated, Output = L::Evaluated>,
    <L::Differentiated as eval::Typed>::Evaluated: AddSpec<
        <R::Differentiated as eval::Typed>::Evaluated,
    > + core::ops::Add<
        <R::Differentiated as eval::Typed>::Evaluated,
        Output = <L::Differentiated as eval::Typed>::Evaluated,
    >,
{
    fn grad(&self, x: u64) -> (r: Self::Differentiated) {
        Add((&self.0).grad(x), (&self.1).grad(x))
    }
}

impl<L: grad::Grad, R: grad::Grad> grad::Grad for Add<L, R> where
    L::Evaluated: AddSpec<R::Evaluated> + core::ops::Add<R::Evaluated, Output = L::Evaluated>,
    <L::Differentiated as eval::Typed>::Evaluated: AddSpec<
        <R::Differentiated as eval::Typed>::Evaluated,
    > + core::ops::Add<
        <R::Differentiated as eval::Typed>::Evaluated,
        Output = <L::Differentiated as eval::Typed>::Evaluated,
    >,
{
}

/// Arithmetic subtraction (e.g. `a - b`).
#[derive(Debug)]
pub struct Sub<L, R>(pub L, pub R);

impl<L: eval::Typed, R: eval::Typed> eval::Typed for Sub<L, R> where
    L::Evaluated: SubSpec<R::Evaluated> + core::ops::Sub<R::Evaluated, Output = L::Evaluated>,
{
    type Evaluated = L::Evaluated;

    open spec fn wf(&self) -> bool {
        &&& self.0.wf()
        &&& self.1.wf()
        &&& <L::Evaluated as SubSpec<R::Evaluated>>::obeys_sub_spec()
        &&& self.0.evaluated().sub_req(self.1.evaluated())
    }

    open spec fn evaluated(&self) -> Self::Evaluated {
        self.0.evaluated().sub_spec(self.1.evaluated())
    }
}

impl<L: eval::Own, R: eval::Own> eval::Own for Sub<L, R> where
    L::Evaluated: SubSpec<R::Evaluated> + core::ops::Sub<R::Evaluated, Output = L::Evaluated>,
{
    fn eval(self) -> (r: Self::Evaluated) {
        let left = self.0.eval();
        let right = self.1.eval();
        core::ops::Sub::sub(left, right)
    }
}

impl<L: eval::Ref, R: eval::Ref> eval::Ref for Sub<L, R> where
    L::Evaluated: SubSpec<R::Evaluated> + core::ops::Sub<R::Evaluated, Output = L::Evaluated>,
{
    fn eval(&self) -> (r: Self::Evaluated) {
        let left = (&self.0).eval();
        let right = (&self.1).eval();
        core::ops::Sub::sub(left, right)
    }
}

impl<L: eval::Eval, R: eval::Eval> eval::Eval for Sub<L, R> where
    L::Evaluated: SubSpec<R::Evaluated> + core::ops::Sub<R::Evaluated, Output = L::Evaluated>,
{
}

impl<L: eval::Eval, R: eval::Eval> core::ops::Sub<Expr<R>> for Expr<L> where
    L::Evaluated: SubSpec<R::Evaluated> + core::ops::Sub<R::Evaluated, Output = L::Evaluated>,
{
    type Output = Expr<Sub<L, R>>;

    fn sub(self, rhs: Expr<R>) -> (r: Self::Output) {
        Expr(Sub(self.0, rhs.0))
    }
}

impl<L: eval::Eval, R: eval::Eval> SubSpecImpl<Expr<R>> for Expr<L> where
    L::Evaluated: SubSpec<R::Evaluated> + core::ops::Sub<R::Evaluated, Output = L::Evaluated>,
{
    open spec fn obeys_sub_spec() -> bool {
        true
    }

    open spec fn sub_req(self, rhs: Expr<R>) -> bool {
        true
    }

    open spec fn sub_spec(self, rhs: Expr<R>) -> Self::Output {
        Expr(Sub(self.0, rhs.0))
    }
}

impl<L: grad::Typed, R: grad::Typed> grad::Typed for Sub<L, R> where
    L::Evaluated: SubSpec<R::Evaluated> + core::ops::Sub<R::Evaluated, Output = L::Evaluated>,
    <L::Differentiated as eval::Typed>::Evaluated: SubSpec<
        <R::Differentiated as eval::Typed>::Evaluated,
    > + core::ops::Sub<
        <R::Differentiated as eval::Typed>::Evaluated,
        Output = <L::Differentiated as eval::Typed>::Evaluated,
    >,
{
    type Differentiated = Sub<L::Differentiated, R::Differentiated>;

    open spec fn differentiated(&self, x: u64) -> Self::Differentiated {
        Sub(self.0.differentiated(x), self.1.differentiated(x))
    }
}

impl<L: grad::Own, R: grad::Own> grad::Own for Sub<L, R> where
    L::Evaluated: SubSpec<R::Evaluated> + core::ops::Sub<R::Evaluated, Output = L::Evaluated>,
    <L::Differentiated as eval::Typed>::Evaluated: SubSpec<
        <R::Differentiated as eval::Typed>::Evaluated,
    > + core::ops::Sub<
        <R::Differentiated as eval::Typed>::Evaluated,
        Output = <L::Differentiated as eval::Typed>::Evaluated,
    >,
{
    fn grad(self, x: u64) -> (r: Self::Differentiated) {
        Sub(self.0.grad(x), self.1.grad(x))
    }
}

impl<L: grad::Ref, R: grad::Ref> grad::Ref for Sub<L, R> where
    L::Evaluated: SubSpec<R::Evaluated> + core::ops::Sub<R::Evaluated, Output = L::Evaluated>,
    <L::Differentiated as eval::Typed>::Evaluated: SubSpec<
        <R::Differentiated as eval::Typed>::Evaluated,
    > + core::ops::Sub<
        <R::Differentiated as eval::Typed>::Evaluated,
        Output = <L::Differentiated as eval::Typed>::Evaluated,
    >,
{
    fn grad(&self, x: u64) -> (r: Self::Differentiated) {
        Sub((&self.0).grad(x), (&self.1).grad(x))
    }
}

impl<L: grad::Grad, R: grad::Grad> grad::Grad for Sub<L, R> where
    L::Evaluated: SubSpec<R::Evaluated> + core::ops::Sub<R::Evaluated, Output = L::Evaluated>,
    <L::Differentiated as eval::Typed>::Evaluated: SubSpec<
        <R::Differentiated as eval::Typed>::Evaluated,
    > + core::ops::Sub<
        <R::Differentiated as eval::Typed>::Evaluated,
        Output = <L::Differentiated as eval::Typed>::Evaluated,
    >,
{
}

/// Arithmetic multiplication (e.g. `a * b`).
#[derive(Debug)]
pub struct Mul<L, R>(pub L, pub R);

impl<L: eval::Typed, R: eval::Typed> eval::Typed for Mul<L, R> where
    L::Evaluated: MulSpec<R::Evaluated> + core::ops::Mul<R::Evaluated, Output = L::Evaluated>,
{
    type Evaluated = L::Evaluated;

    open spec fn wf(&self) -> bool {
        &&& self.0.wf()
        &&& self.1.wf()
        &&& <L::Evaluated as MulSpec<R::Evaluated>>::obeys_mul_spec()
        &&& self.0.evaluated().mul_req(self.1.evaluated())
    }

    open spec fn evaluated(&self) -> Self::Evaluated {
        self.0.evaluated().mul_spec(self.1.evaluated())
    }
}

impl<L: eval::Own, R: eval::Own> eval::Own for Mul<L, R> where
    L::Evaluated: MulSpec<R::Evaluated> + core::ops::Mul<R::Evaluated, Output = L::Evaluated>,
{
    fn eval(self) -> (r: Self::Evaluated) {
        let left = self.0.eval();
        let right = self.1.eval();
        core::ops::Mul::mul(left, right)
    }
}

impl<L: eval::Ref, R: eval::Ref> eval::Ref for Mul<L, R> where
    L::Evaluated: MulSpec<R::Evaluated> + core::ops::Mul<R::Evaluated, Output = L::Evaluated>,
{
    fn eval(&self) -> (r: Self::Evaluated) {
        let left = (&self.0).eval();
        let right = (&self.1).eval();
        core::ops::Mul::mul(left, right)
    }
}

impl<L: eval::Eval, R: eval::Eval> eval::Eval for Mul<L, R> where
    L::Evaluated: MulSpec<R::Evaluated> + core::ops::Mul<R::Evaluated, Output = L::Evaluated>,
{
}

impl<L: eval::Eval, R: eval::Eval> core::ops::Mul<Expr<R>> for Expr<L> where
    L::Evaluated: MulSpec<R::Evaluated> + core::ops::Mul<R::Evaluated, Output = L::Evaluated>,
{
    type Output = Expr<Mul<L, R>>;

    fn mul(self, rhs: Expr<R>) -> (r: Self::Output) {
        Expr(Mul(self.0, rhs.0))
    }
}

impl<L: eval::Eval, R: eval::Eval> MulSpecImpl<Expr<R>> for Expr<L> where
    L::Evaluated: MulSpec<R::Evaluated> + core::ops::Mul<R::Evaluated, Output = L::Evaluated>,
{
    open spec fn obeys_mul_spec() -> bool {
        true
    }

    open spec fn mul_req(self, rhs: Expr<R>) -> bool {
        true
    }

    open spec fn mul_spec(self, rhs: Expr<R>) -> Self::Output {
        Expr(Mul(self.0, rhs.0))
    }
}

/// Arithmetic division (e.g. `a / b`).
#[derive(Debug)]
pub struct Div<L, R>(pub L, pub R);

impl<L: eval::Typed, R: eval::Typed> eval::Typed for Div<L, R> where
    L::Evaluated: DivSpec<R::Evaluated> + core::ops::Div<R::Evaluated, Output = L::Evaluated>,
{
    type Evaluated = L::Evaluated;

    open spec fn wf(&self) -> bool {
        &&& self.0.wf()
        &&& self.1.wf()
        &&& <L::Evaluated as DivSpec<R::Evaluated>>::obeys_div_spec()
        &&& self.0.evaluated().div_req(self.1.evaluated())
    }

    open spec fn evaluated(&self) -> Self::Evaluated {
        self.0.evaluated().div_spec(self.1.evaluated())
    }
}

impl<L: eval::Own, R: eval::Own> eval::Own for Div<L, R> where
    L::Evaluated: DivSpec<R::Evaluated> + core::ops::Div<R::Evaluated, Output = L::Evaluated>,
{
    fn eval(self) -> (r: Self::Evaluated) {
        let left = self.0.eval();
        let right = self.1.eval();
        core::ops::Div::div(left, right)
    }
}

impl<L: eval::Ref, R: eval::Ref> eval::Ref for Div<L, R> where
    L::Evaluated: DivSpec<R::Evaluated> + core::ops::Div<R::Evaluated, Output = L::Evaluated>,
{
    fn eval(&self) -> (r: Self::Evaluated) {
        let left = (&self.0).eval();
        let right = (&self.1).eval();
        core::ops::Div::div(left, right)
    }
}

impl<L: eval::Eval, R: eval::Eval> eval::Eval for Div<L, R> where
    L::Evaluated: DivSpec<R::Evaluated> + core::ops::Div<R::Evaluated, Output = L::Evaluated>,
{
}

impl<L: eval::Eval, R: eval::Eval> core::ops::Div<Expr<R>> for Expr<L> where
    L::Evaluated: DivSpec<R::Evaluated> + core::ops::Div<R::Evaluated, Output = L::Evaluated>,
{
    type Output = Expr<Div<L, R>>;

    fn div(self, rhs: Expr<R>) -> (r: Self::Output) {
        Expr(Div(self.0, rhs.0))
    }
}

impl<L: eval::Eval, R: eval::Eval> DivSpecImpl<Expr<R>> for Expr<L> where
    L::Evaluated: DivSpec<R::Evaluated> + core::ops::Div<R::Evaluated, Output = L::Evaluated>,
{
    open spec fn obeys_div_spec() -> bool {
        true
    }

    open spec fn div_req(self, rhs: Expr<R>) -> bool {
        true
    }

    open spec fn div_spec(self, rhs: Expr<R>) -> Self::Output {
        Expr(Div(self.0, rhs.0))
    }
}

/// Arithmetic remainder (e.g. `a % b`).
#[derive(Debug)]
pub struct Rem<L, R>(pub L, pub R);

impl<L: eval::Typed, R: eval::Typed> eval::Typed for Rem<L, R> where
    L::Evaluated: RemSpec<R::Evaluated> + core::ops::Rem<R::Evaluated, Output = L::Evaluated>,
{
    type Evaluated = L::Evaluated;

    open spec fn wf(&self) -> bool {
        &&& self.0.wf()
        &&& self.1.wf()
        &&& <L::Evaluated as RemSpec<R::Evaluated>>::obeys_rem_spec()
        &&& self.0.evaluated().rem_req(self.1.evaluated())
    }

    open spec fn evaluated(&self) -> Self::Evaluated {
        self.0.evaluated().rem_spec(self.1.evaluated())
    }
}

impl<L: eval::Own, R: eval::Own> eval::Own for Rem<L, R> where
    L::Evaluated: RemSpec<R::Evaluated> + core::ops::Rem<R::Evaluated, Output = L::Evaluated>,
{
    fn eval(self) -> (r: Self::Evaluated) {
        let left = self.0.eval();
        let right = self.1.eval();
        core::ops::Rem::rem(left, right)
    }
}

impl<L: eval::Ref, R: eval::Ref> eval::Ref for Rem<L, R> where
    L::Evaluated: RemSpec<R::Evaluated> + core::ops::Rem<R::Evaluated, Output = L::Evaluated>,
{
    fn eval(&self) -> (r: Self::Evaluated) {
        let left = (&self.0).eval();
        let right = (&self.1).eval();
        core::ops::Rem::rem(left, right)
    }
}

impl<L: eval::Eval, R: eval::Eval> eval::Eval for Rem<L, R> where
    L::Evaluated: RemSpec<R::Evaluated> + core::ops::Rem<R::Evaluated, Output = L::Evaluated>,
{
}

impl<L: eval::Eval, R: eval::Eval> core::ops::Rem<Expr<R>> for Expr<L> where
    L::Evaluated: RemSpec<R::Evaluated> + core::ops::Rem<R::Evaluated, Output = L::Evaluated>,
{
    type Output = Expr<Rem<L, R>>;

    fn rem(self, rhs: Expr<R>) -> (r: Self::Output) {
        Expr(Rem(self.0, rhs.0))
    }
}

impl<L: eval::Eval, R: eval::Eval> RemSpecImpl<Expr<R>> for Expr<L> where
    L::Evaluated: RemSpec<R::Evaluated> + core::ops::Rem<R::Evaluated, Output = L::Evaluated>,
{
    open spec fn obeys_rem_spec() -> bool {
        true
    }

    open spec fn rem_req(self, rhs: Expr<R>) -> bool {
        true
    }

    open spec fn rem_spec(self, rhs: Expr<R>) -> Self::Output {
        Expr(Rem(self.0, rhs.0))
    }
}

/// Bitwise conjunction (e.g. `a & b`).
#[derive(Debug)]
pub struct BitAnd<L, R>(pub L, pub R);

impl<L: eval::Typed, R: eval::Typed> eval::Typed for BitAnd<L, R> where
    L::Evaluated: BitAndSpec<R::Evaluated> + core::ops::BitAnd<R::Evaluated, Output = L::Evaluated>,
{
    type Evaluated = L::Evaluated;

    open spec fn wf(&self) -> bool {
        &&& self.0.wf()
        &&& self.1.wf()
        &&& <L::Evaluated as BitAndSpec<R::Evaluated>>::obeys_bitand_spec()
        &&& self.0.evaluated().bitand_req(self.1.evaluated())
    }

    open spec fn evaluated(&self) -> Self::Evaluated {
        self.0.evaluated().bitand_spec(self.1.evaluated())
    }
}

impl<L: eval::Own, R: eval::Own> eval::Own for BitAnd<L, R> where
    L::Evaluated: BitAndSpec<R::Evaluated> + core::ops::BitAnd<R::Evaluated, Output = L::Evaluated>,
{
    fn eval(self) -> (r: Self::Evaluated) {
        let left = self.0.eval();
        let right = self.1.eval();
        core::ops::BitAnd::bitand(left, right)
    }
}

impl<L: eval::Ref, R: eval::Ref> eval::Ref for BitAnd<L, R> where
    L::Evaluated: BitAndSpec<R::Evaluated> + core::ops::BitAnd<R::Evaluated, Output = L::Evaluated>,
{
    fn eval(&self) -> (r: Self::Evaluated) {
        let left = (&self.0).eval();
        let right = (&self.1).eval();
        core::ops::BitAnd::bitand(left, right)
    }
}

impl<L: eval::Eval, R: eval::Eval> eval::Eval for BitAnd<L, R> where
    L::Evaluated: BitAndSpec<R::Evaluated> + core::ops::BitAnd<R::Evaluated, Output = L::Evaluated>,
{
}

impl<L: eval::Eval, R: eval::Eval> core::ops::BitAnd<Expr<R>> for Expr<L> where
    L::Evaluated: BitAndSpec<R::Evaluated> + core::ops::BitAnd<R::Evaluated, Output = L::Evaluated>,
{
    type Output = Expr<BitAnd<L, R>>;

    fn bitand(self, rhs: Expr<R>) -> (r: Self::Output) {
        Expr(BitAnd(self.0, rhs.0))
    }
}

impl<L: eval::Eval, R: eval::Eval> BitAndSpecImpl<Expr<R>> for Expr<L> where
    L::Evaluated: BitAndSpec<R::Evaluated> + core::ops::BitAnd<R::Evaluated, Output = L::Evaluated>,
{
    open spec fn obeys_bitand_spec() -> bool {
        true
    }

    open spec fn bitand_req(self, rhs: Expr<R>) -> bool {
        true
    }

    open spec fn bitand_spec(self, rhs: Expr<R>) -> Self::Output {
        Expr(BitAnd(self.0, rhs.0))
    }
}

/// Bitwise inclusive-or (e.g. `a | b`).
#[derive(Debug)]
pub struct BitOr<L, R>(pub L, pub R);

impl<L: eval::Typed, R: eval::Typed> eval::Typed for BitOr<L, R> where
    L::Evaluated: BitOrSpec<R::Evaluated> + core::ops::BitOr<R::Evaluated, Output = L::Evaluated>,
{
    type Evaluated = L::Evaluated;

    open spec fn wf(&self) -> bool {
        &&& self.0.wf()
        &&& self.1.wf()
        &&& <L::Evaluated as BitOrSpec<R::Evaluated>>::obeys_bitor_spec()
        &&& self.0.evaluated().bitor_req(self.1.evaluated())
    }

    open spec fn evaluated(&self) -> Self::Evaluated {
        self.0.evaluated().bitor_spec(self.1.evaluated())
    }
}

impl<L: eval::Own, R: eval::Own> eval::Own for BitOr<L, R> where
    L::Evaluated: BitOrSpec<R::Evaluated> + core::ops::BitOr<R::Evaluated, Output = L::Evaluated>,
{
    fn eval(self) -> (r: Self::Evaluated) {
        let left = self.0.eval();
        let right = self.1.eval();
        core::ops::BitOr::bitor(left, right)
    }
}

impl<L: eval::Ref, R: eval::Ref> eval::Ref for BitOr<L, R> where
    L::Evaluated: BitOrSpec<R::Evaluated> + core::ops::BitOr<R::Evaluated, Output = L::Evaluated>,
{
    fn eval(&self) -> (r: Self::Evaluated) {
        let left = (&self.0).eval();
        let right = (&self.1).eval();
        core::ops::BitOr::bitor(left, right)
    }
}

impl<L: eval::Eval, R: eval::Eval> eval::Eval for BitOr<L, R> where
    L::Evaluated: BitOrSpec<R::Evaluated> + core::ops::BitOr<R::Evaluated, Output = L::Evaluated>,
{
}

impl<L: eval::Eval, R: eval::Eval> core::ops::BitOr<Expr<R>> for Expr<L> where
    L::Evaluated: BitOrSpec<R::Evaluated> + core::ops::BitOr<R::Evaluated, Output = L::Evaluated>,
{
    type Output = Expr<BitOr<L, R>>;

    fn bitor(self, rhs: Expr<R>) -> (r: Self::Output) {
        Expr(BitOr(self.0, rhs.0))
    }
}

impl<L: eval::Eval, R: eval::Eval> BitOrSpecImpl<Expr<R>> for Expr<L> where
    L::Evaluated: BitOrSpec<R::Evaluated> + core::ops::BitOr<R::Evaluated, Output = L::Evaluated>,
{
    open spec fn obeys_bitor_spec() -> bool {
        true
    }

    open spec fn bitor_req(self, rhs: Expr<R>) -> bool {
        true
    }

    open spec fn bitor_spec(self, rhs: Expr<R>) -> Self::Output {
        Expr(BitOr(self.0, rhs.0))
    }
}

/// Bitwise exclusive-or (e.g. `a ^ b`).
#[derive(Debug)]
pub struct BitXor<L, R>(pub L, pub R);

impl<L: eval::Typed, R: eval::Typed> eval::Typed for BitXor<L, R> where
    L::Evaluated: BitXorSpec<R::Evaluated> + core::ops::BitXor<R::Evaluated, Output = L::Evaluated>,
{
    type Evaluated = L::Evaluated;

    open spec fn wf(&self) -> bool {
        &&& self.0.wf()
        &&& self.1.wf()
        &&& <L::Evaluated as BitXorSpec<R::Evaluated>>::obeys_bitxor_spec()
        &&& self.0.evaluated().bitxor_req(self.1.evaluated())
    }

    open spec fn evaluated(&self) -> Self::Evaluated {
        self.0.evaluated().bitxor_spec(self.1.evaluated())
    }
}

impl<L: eval::Own, R: eval::Own> eval::Own for BitXor<L, R> where
    L::Evaluated: BitXorSpec<R::Evaluated> + core::ops::BitXor<R::Evaluated, Output = L::Evaluated>,
{
    fn eval(self) -> (r: Self::Evaluated) {
        let left = self.0.eval();
        let right = self.1.eval();
        core::ops::BitXor::bitxor(left, right)
    }
}

impl<L: eval::Ref, R: eval::Ref> eval::Ref for BitXor<L, R> where
    L::Evaluated: BitXorSpec<R::Evaluated> + core::ops::BitXor<R::Evaluated, Output = L::Evaluated>,
{
    fn eval(&self) -> (r: Self::Evaluated) {
        let left = (&self.0).eval();
        let right = (&self.1).eval();
        core::ops::BitXor::bitxor(left, right)
    }
}

impl<L: eval::Eval, R: eval::Eval> eval::Eval for BitXor<L, R> where
    L::Evaluated: BitXorSpec<R::Evaluated> + core::ops::BitXor<R::Evaluated, Output = L::Evaluated>,
{
}

impl<L: eval::Eval, R: eval::Eval> core::ops::BitXor<Expr<R>> for Expr<L> where
    L::Evaluated: BitXorSpec<R::Evaluated> + core::ops::BitXor<R::Evaluated, Output = L::Evaluated>,
{
    type Output = Expr<BitXor<L, R>>;

    fn bitxor(self, rhs: Expr<R>) -> (r: Self::Output) {
        Expr(BitXor(self.0, rhs.0))
    }
}

impl<L: eval::Eval, R: eval::Eval> BitXorSpecImpl<Expr<R>> for Expr<L> where
    L::Evaluated: BitXorSpec<R::Evaluated> + core::ops::BitXor<R::Evaluated, Output = L::Evaluated>,
{
    open spec fn obeys_bitxor_spec() -> bool {
        true
    }

    open spec fn bitxor_req(self, rhs: Expr<R>) -> bool {
        true
    }

    open spec fn bitxor_spec(self, rhs: Expr<R>) -> Self::Output {
        Expr(BitXor(self.0, rhs.0))
    }
}

/// Arithmetic left-shift (e.g. `a << b`).
#[derive(Debug)]
pub struct Shl<L, R>(pub L, pub R);

impl<L: eval::Typed, R: eval::Typed> eval::Typed for Shl<L, R> where
    L::Evaluated: ShlSpec<R::Evaluated> + core::ops::Shl<R::Evaluated, Output = L::Evaluated>,
{
    type Evaluated = L::Evaluated;

    open spec fn wf(&self) -> bool {
        &&& self.0.wf()
        &&& self.1.wf()
        &&& <L::Evaluated as ShlSpec<R::Evaluated>>::obeys_shl_spec()
        &&& self.0.evaluated().shl_req(self.1.evaluated())
    }

    open spec fn evaluated(&self) -> Self::Evaluated {
        self.0.evaluated().shl_spec(self.1.evaluated())
    }
}

impl<L: eval::Own, R: eval::Own> eval::Own for Shl<L, R> where
    L::Evaluated: ShlSpec<R::Evaluated> + core::ops::Shl<R::Evaluated, Output = L::Evaluated>,
{
    fn eval(self) -> (r: Self::Evaluated) {
        let left = self.0.eval();
        let right = self.1.eval();
        core::ops::Shl::shl(left, right)
    }
}

impl<L: eval::Ref, R: eval::Ref> eval::Ref for Shl<L, R> where
    L::Evaluated: ShlSpec<R::Evaluated> + core::ops::Shl<R::Evaluated, Output = L::Evaluated>,
{
    fn eval(&self) -> (r: Self::Evaluated) {
        let left = (&self.0).eval();
        let right = (&self.1).eval();
        core::ops::Shl::shl(left, right)
    }
}

impl<L: eval::Eval, R: eval::Eval> eval::Eval for Shl<L, R> where
    L::Evaluated: ShlSpec<R::Evaluated> + core::ops::Shl<R::Evaluated, Output = L::Evaluated>,
{
}

impl<L: eval::Eval, R: eval::Eval> core::ops::Shl<Expr<R>> for Expr<L> where
    L::Evaluated: ShlSpec<R::Evaluated> + core::ops::Shl<R::Evaluated, Output = L::Evaluated>,
{
    type Output = Expr<Shl<L, R>>;

    fn shl(self, rhs: Expr<R>) -> (r: Self::Output) {
        Expr(Shl(self.0, rhs.0))
    }
}

impl<L: eval::Eval, R: eval::Eval> ShlSpecImpl<Expr<R>> for Expr<L> where
    L::Evaluated: ShlSpec<R::Evaluated> + core::ops::Shl<R::Evaluated, Output = L::Evaluated>,
{
    open spec fn obeys_shl_spec() -> bool {
        true
    }

    open spec fn shl_req(self, rhs: Expr<R>) -> bool {
        true
    }

    open spec fn shl_spec(self, rhs: Expr<R>) -> Self::Output {
        Expr(Shl(self.0, rhs.0))
    }
}

/// Arithmetic right-shift (e.g. `a >> b`).
#[derive(Debug)]
pub struct Shr<L, R>(pub L, pub R);

impl<L: eval::Typed, R: eval::Typed> eval::Typed for Shr<L, R> where
    L::Evaluated: ShrSpec<R::Evaluated> + core::ops::Shr<R::Evaluated, Output = L::Evaluated>,
{
    type Evaluated = L::Evaluated;

    open spec fn wf(&self) -> bool {
        &&& self.0.wf()
        &&& self.1.wf()
        &&& <L::Evaluated as ShrSpec<R::Evaluated>>::obeys_shr_spec()
        &&& self.0.evaluated().shr_req(self.1.evaluated())
    }

    open spec fn evaluated(&self) -> Self::Evaluated {
        self.0.evaluated().shr_spec(self.1.evaluated())
    }
}

impl<L: eval::Own, R: eval::Own> eval::Own for Shr<L, R> where
    L::Evaluated: ShrSpec<R::Evaluated> + core::ops::Shr<R::Evaluated, Output = L::Evaluated>,
{
    fn eval(self) -> (r: Self::Evaluated) {
        let left = self.0.eval();
        let right = self.1.eval();
        core::ops::Shr::shr(left, right)
    }
}

impl<L: eval::Ref, R: eval::Ref> eval::Ref for Shr<L, R> where
    L::Evaluated: ShrSpec<R::Evaluated> + core::ops::Shr<R::Evaluated, Output = L::Evaluated>,
{
    fn eval(&self) -> (r: Self::Evaluated) {
        let left = (&self.0).eval();
        let right = (&self.1).eval();
        core::ops::Shr::shr(left, right)
    }
}

impl<L: eval::Eval, R: eval::Eval> eval::Eval for Shr<L, R> where
    L::Evaluated: ShrSpec<R::Evaluated> + core::ops::Shr<R::Evaluated, Output = L::Evaluated>,
{
}

impl<L: eval::Eval, R: eval::Eval> core::ops::Shr<Expr<R>> for Expr<L> where
    L::Evaluated: ShrSpec<R::Evaluated> + core::ops::Shr<R::Evaluated, Output = L::Evaluated>,
{
    type Output = Expr<Shr<L, R>>;

    fn shr(self, rhs: Expr<R>) -> (r: Self::Output) {
        Expr(Shr(self.0, rhs.0))
    }
}

impl<L: eval::Eval, R: eval::Eval> ShrSpecImpl<Expr<R>> for Expr<L> where
    L::Evaluated: ShrSpec<R::Evaluated> + core::ops::Shr<R::Evaluated, Output = L::Evaluated>,
{
    open spec fn obeys_shr_spec() -> bool {
        true
    }

    open spec fn shr_req(self, rhs: Expr<R>) -> bool {
        true
    }

    open spec fn shr_spec(self, rhs: Expr<R>) -> Self::Output {
        Expr(Shr(self.0, rhs.0))
    }
}

} // verus!

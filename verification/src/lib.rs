//! Lazy, differentiable expression trees.
//!
//! A computation is built as a tree of typed nodes: leaves bind scalar
//! values, operator nodes combine sub-trees.  Building a tree never
//! evaluates it.  A finished tree can be folded into a value either by
//! consuming it once ([`eval::Own`]) or any number of times through a
//! reference ([`eval::Ref`]), and it can be differentiated with respect
//! to a chosen leaf ([`grad`]), which yields a new, independently
//! evaluable tree, to any order.
//!
//! Every operation carries a contract: evaluation returns exactly the
//! value described by the tree's [`eval::Typed::evaluated`] model, and
//! differentiation returns exactly the tree described by
//! [`grad::Typed::differentiated`].

pub mod eval;
pub mod expr;
pub mod grad;
pub mod laws;
pub mod leaf;
pub mod ops;

pub use eval::Eval;
pub use expr::Expr;
pub use expr::var;
pub use grad::Grad;
pub use leaf::Const;
pub use leaf::Leaf;
pub use leaf::Var;

use dxpr::eval::{Own, Ref};
use dxpr::expr::{var, Expr};
use dxpr::grad::Own as GradOwn;

#[test]
fn dbg_var() {
    println!("{:?}", var(0, 4));
}

#[test]
fn dbg_expr() {
    println!("{:?}", Expr(var(0, 4)));
}

#[test]
fn dbg_neg() {
    println!("{:?}", -var(0, 4));
}

#[test]
fn dbg_not() {
    println!("{:?}", !var(0, false));
}

#[test]
fn eval_var() {
    assert_eq!(4, var(0, 4).eval())
}

#[test]
fn const_eval_var() {
    let value: i32 = var(0, 4).eval();
    assert_eq!(4, value);
}

#[test]
fn eval_expr() {
    assert_eq!(4, Expr(var(0, 4)).eval())
}

#[test]
fn const_eval_expr() {
    let value: i32 = Expr(var(0, 4)).eval();
    assert_eq!(4, value);
}

#[test]
fn neg_var() {
    assert_eq!(-4, (-var(0, 4)).eval());
}

#[test]
fn const_neg_var() {
    let value: i32 = (-var(0, 4)).eval();
    assert_eq!(-4, value);
}

#[test]
fn neg_expr() {
    assert_eq!(4, (--var(0, 4)).eval());
}

#[test]
fn const_neg_expr() {
    let value: i32 = (--var(0, 4)).eval();
    assert_eq!(4, value);
}

#[test]
fn not_var() {
    assert_eq!(false, (!var(0, true)).eval());
}

#[test]
fn not_expr() {
    assert_eq!(true, (!!var(0, true)).eval());
}

#[test]
fn eval_twice() {
    let expr: Expr<dxpr::ops::Neg<dxpr::ops::Neg<dxpr::leaf::Var<i32>>>> = --var(0, 4);
    (&expr).eval();
    expr.eval();
}

#[test]
fn add_var() {
    assert_eq!(3, (var(0, 1) + var(1, 2)).eval());
}

#[test]
fn add_expr() {
    assert_eq!(15, ((var(0, 1) + var(1, 2)) + (var(2, 4) + var(3, 8))).eval());
}

#[test]
fn grad_tautological_self_runtime() {
    let x = 1;
    let g = var(0, x).grad(0);
    let v: i32 = g.eval();
    assert_eq!(1, v);
}

#[test]
#[allow(unused_variables)]
fn grad_tautological_other_runtime() {
    let x = 1;
    let y = 1; // same value, but the token 1 names a distinct variable!
    let g = var(0, x).grad(1);
    let v: i32 = g.eval();
    assert_eq!(0, v);
}

#[test]
fn grad_add_runtime() {
    let a = 4;
    let b = 4;
    let ga = (var(0, a) + var(1, b)).grad(0);
    let gb = (var(0, a) + var(1, b)).grad(1);
    assert_eq!(1, ga.eval());
    assert_eq!(1, gb.eval());
}

#[test]
fn grad_sub_runtime() {
    let a = 4;
    let b = 4;
    let ga = (var(0, a) - var(1, b)).grad(0);
    let gb = (var(0, a) - var(1, b)).grad(1);
    assert_eq!(1, ga.eval());
    assert_eq!(-1, gb.eval());
}

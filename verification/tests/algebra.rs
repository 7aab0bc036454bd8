use dxpr::eval::{eval_ref_matches_eval_owned, shit, Own, Ref};
use dxpr::expr::var;
use dxpr::grad::{Own as GradOwn, Ref as GradRef};

#[test]
fn leaf_round_trip_by_ref() {
    let leaf = var(0, 7);
    assert_eq!(7, (&leaf).eval());
    assert_eq!(7, leaf.eval());
}

#[test]
fn eval_ref_repeats_and_matches_owned() {
    let tree = -var(0, 4);
    assert_eq!((&tree).eval(), (&tree).eval());
    assert_eq!(-4, (&tree).eval());
    assert_eq!(-4, tree.eval());
}

#[test]
fn eval_both_modes_agree() {
    let (by_reference, by_consumption) = eval_ref_matches_eval_owned(-var(0, 4));
    assert_eq!(by_reference, by_consumption);
    assert_eq!(-4, by_reference);
}

#[test]
fn sub_var() {
    assert_eq!(6, (var(0, 9) - var(1, 3)).eval());
}

#[test]
fn mul_var() {
    assert_eq!(42, (var(0, 6) * var(1, 7)).eval());
}

#[test]
fn div_var() {
    assert_eq!(3, (var(0, 7) / var(1, 2)).eval());
    assert_eq!(-3, (var(0, -7) / var(1, 2)).eval());
}

#[test]
fn rem_var() {
    assert_eq!(3, (var(0, 7) % var(1, 4)).eval());
}

#[test]
fn bitand_var() {
    assert_eq!(2, (var(0, 6) & var(1, 3)).eval());
    assert_eq!(false, (var(0, true) & var(1, false)).eval());
}

#[test]
fn bitor_var() {
    assert_eq!(7, (var(0, 6) | var(1, 3)).eval());
    assert_eq!(true, (var(0, true) | var(1, false)).eval());
}

#[test]
fn bitxor_var() {
    assert_eq!(5, (var(0, 6) ^ var(1, 3)).eval());
    assert_eq!(true, (var(0, true) ^ var(1, false)).eval());
}

#[test]
fn shl_var() {
    assert_eq!(32u32, (var(0, 1u32) << var(1, 5u32)).eval());
}

#[test]
fn shr_var() {
    assert_eq!(1u32, (var(0, 32u32) >> var(1, 5u32)).eval());
}

#[test]
fn wide_and_narrow_leaves() {
    assert_eq!(255u8, (var(0, 200u8) + var(1, 55u8)).eval());
    assert_eq!(-3i64, (var(0, 4i64) - var(1, 7i64)).eval());
    assert_eq!(1u128, (var(0, 3u128) % var(1, 2u128)).eval());
}

#[test]
fn grad_by_ref_leaves_tree_usable() {
    let tree = var(0, 4) + var(1, 4);
    let left = (&tree).grad(0);
    let right = (&tree).grad(1);
    assert_eq!(1, left.eval());
    assert_eq!(1, right.eval());
    assert_eq!(8, tree.eval());
}

#[test]
fn grad_neg_var() {
    let g = (-var(0, 4)).grad(0);
    assert_eq!(-1, g.eval());
}

#[test]
fn grad_grad_neg_is_zero() {
    let second = (-var(0, 4)).grad(0).grad(0);
    assert_eq!(0, (&second).eval());
    let third = second.grad(0);
    assert_eq!(0, third.eval());
}

#[test]
fn grad_unsigned_add() {
    let g = (var(0, 4u32) + var(1, 4u32)).grad(0);
    assert_eq!(1u32, g.eval());
}

#[test]
fn grad_unrelated_token_everywhere_is_zero() {
    let g = (var(0, 4) + var(1, 4)).grad(9);
    assert_eq!(0, g.eval());
}

#[test]
fn shit_matches_lazy_addition() {
    let eager = shit((var(0, 1) + var(1, 2)).eval(), (var(2, 4) + var(3, 8)).eval());
    assert_eq!(15, eager);
    assert_eq!(
        eager,
        ((var(0, 1) + var(1, 2)) + (var(2, 4) + var(3, 8))).eval()
    );
}

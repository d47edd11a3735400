use std::cmp::Ordering;

use subtle_derive::composite::{ct_cmp, ct_eq, ct_gt, ct_lt, ct_partial_cmp, order_of};
use subtle_derive::iterated::{IteratedEq, IteratedGreater, IteratedLess};
use subtle_derive::leaf::CtLeaf;
use subtle_derive::mask::Mask;

struct Point {
    x: u8,
    y: u16,
}

fn point_eq(a: &Point, b: &Point) -> bool {
    let mut acc = IteratedEq::initiate();
    acc.apply_eq(&a.x, &b.x);
    acc.apply_eq(&a.y, &b.y);
    acc.extract_result().to_bool()
}

fn point_gt(a: &Point, b: &Point) -> bool {
    let mut acc = IteratedGreater::initiate();
    acc.apply_gt(&a.x, &b.x);
    acc.apply_gt(&a.y, &b.y);
    acc.extract_result().to_bool()
}

fn point_lt(a: &Point, b: &Point) -> bool {
    let mut acc = IteratedLess::initiate();
    acc.apply_lt(&a.x, &b.x);
    acc.apply_lt(&a.y, &b.y);
    acc.extract_result().to_bool()
}

fn point_cmp(a: &Point, b: &Point) -> Ordering {
    let mut eq = IteratedEq::initiate();
    eq.apply_eq(&a.x, &b.x);
    eq.apply_eq(&a.y, &b.y);
    let mut gt = IteratedGreater::initiate();
    gt.apply_gt(&a.x, &b.x);
    gt.apply_gt(&a.y, &b.y);
    order_of(eq.extract_result(), gt.extract_result())
}

#[test]
fn scenario_a_named_fields() {
    let first = Point { x: 0, y: 1 };
    let second = Point { x: 0, y: 2 };
    assert!(!point_eq(&first, &second));
    assert!(!point_gt(&first, &second));
    assert!(point_gt(&second, &first));
    assert!(point_lt(&first, &second));
    assert!(!point_lt(&second, &first));
}

#[test]
fn scenario_a_positional_fields() {
    let first: [u8; 2] = [0, 1];
    let second: [u8; 2] = [0, 2];
    assert!(!ct_eq(&first, &second).to_bool());
    assert!(!ct_gt(&first, &second).to_bool());
    assert!(ct_gt(&second, &first).to_bool());
    assert!(ct_eq(&first, &first).to_bool());
    assert!(ct_eq(&second, &second).to_bool());
}

#[test]
fn scenario_b_first_field_dominates() {
    let first = Point { x: 5, y: 9 };
    let second = Point { x: 3, y: 100 };
    assert!(point_gt(&first, &second));
    assert!(!point_gt(&second, &first));
    assert!(point_lt(&second, &first));
    let a: [u32; 2] = [5, 9];
    let b: [u32; 2] = [3, 100];
    assert!(ct_gt(&a, &b).to_bool());
    assert!(!ct_lt(&a, &b).to_bool());
}

#[test]
fn scenario_c_compare() {
    let first: [u8; 2] = [0, 1];
    let second: [u8; 2] = [0, 2];
    assert_eq!(ct_cmp(&second, &first), Ordering::Greater);
    assert_eq!(ct_cmp(&first, &second), Ordering::Less);
    assert_eq!(ct_cmp(&first, &first), Ordering::Equal);
    assert_eq!(ct_partial_cmp(&second, &first), Some(Ordering::Greater));
    assert_eq!(ct_partial_cmp(&first, &second), Some(Ordering::Less));
    let p1 = Point { x: 0, y: 1 };
    let p2 = Point { x: 0, y: 2 };
    assert_eq!(point_cmp(&p2, &p1), Ordering::Greater);
    assert_eq!(point_cmp(&p1, &p2), Ordering::Less);
    assert_eq!(point_cmp(&p1, &p1), Ordering::Equal);
}

#[test]
fn reflexive_on_several_values() {
    let values: [[u64; 3]; 3] = [[0, 0, 0], [1, 2, 3], [u64::MAX, 0, u64::MAX]];
    for v in values.iter() {
        assert!(ct_eq(v, v).to_bool());
        assert!(!ct_gt(v, v).to_bool());
        assert!(!ct_lt(v, v).to_bool());
    }
}

#[test]
fn exactly_one_outcome_and_antisymmetry() {
    let values: [[u16; 3]; 5] = [
        [0, 0, 0],
        [0, 0, 1],
        [0, 1, 0],
        [1, 0, 0],
        [65535, 65535, 65535],
    ];
    for a in values.iter() {
        for b in values.iter() {
            let eq = ct_eq(a, b).to_bool();
            let gt = ct_gt(a, b).to_bool();
            let lt = ct_lt(a, b).to_bool();
            assert_eq!(eq as u8 + gt as u8 + lt as u8, 1);
            assert_eq!(gt, ct_lt(b, a).to_bool());
            assert_eq!(eq, a == b);
        }
    }
}

#[test]
fn earlier_field_outweighs_later_ones() {
    let a: [u8; 3] = [7, 0, 0];
    let b: [u8; 3] = [6, 255, 255];
    assert!(ct_gt(&a, &b).to_bool());
    assert!(ct_lt(&b, &a).to_bool());
    let c: [u8; 3] = [1, 9, 0];
    let d: [u8; 3] = [1, 8, 200];
    assert!(ct_gt(&c, &d).to_bool());
    assert_eq!(ct_cmp(&c, &d), Ordering::Greater);
}

#[test]
fn no_fields_compare_equal() {
    let a: [u8; 0] = [];
    let b: [u8; 0] = [];
    assert!(ct_eq(&a, &b).to_bool());
    assert!(!ct_gt(&a, &b).to_bool());
    assert!(!ct_lt(&a, &b).to_bool());
    assert_eq!(ct_cmp(&a, &b), Ordering::Equal);
    assert!(IteratedEq::initiate().extract_result().to_bool());
    assert!(!IteratedGreater::initiate().extract_result().to_bool());
    assert!(!IteratedLess::initiate().extract_result().to_bool());
}

#[test]
fn leaf_primitives_of_each_width() {
    assert!(3u8.leaf_eq(&3).to_bool());
    assert!(!3u8.leaf_eq(&4).to_bool());
    assert!(4u8.leaf_gt(&3).to_bool());
    assert!(!3u8.leaf_gt(&3).to_bool());
    assert!(!3u8.leaf_gt(&4).to_bool());
    assert!(300u16.leaf_eq(&300).to_bool());
    assert!(!300u16.leaf_eq(&301).to_bool());
    assert!(301u16.leaf_gt(&300).to_bool());
    assert!(!300u16.leaf_gt(&301).to_bool());
    assert!(70000u32.leaf_eq(&70000).to_bool());
    assert!(!70000u32.leaf_eq(&1).to_bool());
    assert!(70000u32.leaf_gt(&69999).to_bool());
    assert!(!1u32.leaf_gt(&70000).to_bool());
    assert!(u64::MAX.leaf_eq(&u64::MAX).to_bool());
    assert!(!u64::MAX.leaf_eq(&0).to_bool());
    assert!(u64::MAX.leaf_gt(&0).to_bool());
    assert!(!0u64.leaf_gt(&u64::MAX).to_bool());
}

#[test]
fn order_of_each_outcome() {
    assert_eq!(order_of(Mask::set(), Mask::unset()), Ordering::Equal);
    assert_eq!(order_of(Mask::unset(), Mask::set()), Ordering::Greater);
    assert_eq!(order_of(Mask::unset(), Mask::unset()), Ordering::Less);
}

#[test]
fn mixed_width_fields_follow_field_order() {
    let a: (u8, u32, u64) = (2, 0, 0);
    let b: (u8, u32, u64) = (1, u32::MAX, u64::MAX);
    let mut gt = IteratedGreater::initiate();
    gt.apply_gt(&a.0, &b.0);
    gt.apply_gt(&a.1, &b.1);
    gt.apply_gt(&a.2, &b.2);
    assert!(gt.extract_result().to_bool());
    let mut lt = IteratedLess::initiate();
    lt.apply_lt(&b.0, &a.0);
    lt.apply_lt(&b.1, &a.1);
    lt.apply_lt(&b.2, &a.2);
    assert!(lt.extract_result().to_bool());
    let mut eq = IteratedEq::initiate();
    eq.apply_eq(&a.0, &b.0);
    eq.apply_eq(&a.1, &b.1);
    eq.apply_eq(&a.2, &b.2);
    assert!(!eq.extract_result().to_bool());
}

use cargo_difftests::advanced_arithmetic::{add, div, div_unchecked, mul, sub};

#[test]
fn tests_test_add() {
    assert_eq!(add(1, 2), 3);
}

#[test]
fn tests_test_sub() {
    assert_eq!(sub(3, 2), 1);
}

#[test]
fn tests_test_mul() {
    assert_eq!(mul(2, 3), 6);
}

#[test]
fn tests_test_div() {
    assert_eq!(div(6, 3), Some(2));
}

#[test]
fn tests_test_div_2() {
    assert_eq!(div(6, 0), None);
}

#[test]
fn div_rounds_towards_zero() {
    assert_eq!(div_unchecked(-7, 2), -3);
    assert_eq!(div_unchecked(7, -2), -3);
    assert_eq!(div_unchecked(-7, -2), 3);
    assert_eq!(div(-7, 2), Some(-3));
}

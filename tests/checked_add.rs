use lessons::checked_add::my_add;

#[test]
fn main_test_1() {
    assert_eq!(1, 1);
}

#[test]
fn test_2() {
    assert_eq!(my_add(1, 2), 3);
    assert_eq!(my_add(1, 3), 4);
}

#[test]
fn test_0() {
    assert_eq!(my_add(3, 5), 8);
}

#[test]
fn my_test_test_1() {
    assert_eq!(my_add(1, 2), 3);
}

#[test]
fn checked_add_zero_and_largest() {
    assert_eq!(my_add(0, 0), 0);
    assert_eq!(my_add(i32::MAX - 1, 1), i32::MAX);
}

use the_book::chapter_11::adder;

#[test]
fn equality_test() {
    assert_eq!(adder(2, 2), 4);
}

#[test]
fn not_equal_test() {
    assert_ne!(adder(2, 2), 5);
}

#[test]
#[should_panic]
fn panic_test() {
    assert_eq!(adder(2, 2), 5);
}

#[test]
fn adder_takes_negative_numbers() {
    assert_eq!(adder(-7, 3), -4);
    assert_eq!(adder(0, 0), 0);
}

#[test]
fn adder_reaches_both_ends() {
    assert_eq!(adder(i32::MAX, 0), i32::MAX);
    assert_eq!(adder(i32::MIN + 1, -1), i32::MIN);
    assert_eq!(adder(i32::MAX, i32::MIN), -1);
}

use samples::functions::{add, add_with_offset, greeting};
use samples::vectors::double_all;

#[test]
fn greeting_line() {
    assert_eq!(greeting("Hello", "James"), "Hello James, nice to mee you!");
    assert_eq!(greeting("", ""), " , nice to mee you!");
}

#[test]
fn add_values() {
    assert_eq!(add(3, 3), 6);
    assert_eq!(add(i32::MAX, 0), i32::MAX);
    assert_eq!(add(-5, 2), -3);
}

#[test]
fn add_with_offset_values() {
    assert_eq!(add_with_offset(3, 3, 10), 16);
    assert_eq!(add_with_offset(i32::MAX, 1, -1), i32::MAX);
}

#[test]
fn double_every_element() {
    let mut v = vec![1, 2, 20, 4, 5, 9];
    double_all(&mut v);
    assert_eq!(v, vec![2, 4, 40, 8, 10, 18]);
    let mut e: Vec<i32> = Vec::new();
    double_all(&mut e);
    assert!(e.is_empty());
}

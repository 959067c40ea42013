use hello::adder::{add, add_two, greeting, Rectangle};

#[test]
fn exploration() {
    assert_eq!(2 + 2, 4);
}

#[test]
fn it_works() {
    let result = add(2, 2);
    assert_eq!(result, 4);
}

#[test]
fn larger_can_hold_smaller() {
    let larger = Rectangle {
        width: 8,
        height: 7,
    };
    let smaller = Rectangle {
        width: 5,
        height: 6,
    };
    assert!(larger.can_hold(&smaller));
}

#[test]
fn smaller_cannot_hold_larger() {
    let larger = Rectangle {
        width: 8,
        height: 7,
    };
    let smaller = Rectangle {
        width: 5,
        height: 6,
    };
    assert!(!smaller.can_hold(&larger));
}

#[test]
fn adds_two() {
    assert_eq!(4, add_two(2));
}

#[test]
fn doesnt_add_three() {
    assert_ne!(5, add_two(2));
}

#[test]
fn greeting_contains_name() {
    let result = greeting("Carol".to_string());
    assert!(result.contains("Carol"),
            "Greeting did not contain name; value was {}",
            result);
}

#[test]
fn greeting_is_the_welcome_then_the_name() {
    assert_eq!(greeting("Carol".to_string()), "Hello, Carol");
    assert_eq!(greeting(String::new()), "Hello, ");
}

#[test]
fn add_reaches_the_largest_size() {
    assert_eq!(add(usize::MAX - 1, 1), usize::MAX);
    assert_eq!(add(0, 0), 0);
}

#[test]
fn add_two_at_the_edges() {
    assert_eq!(add_two(i32::MAX - 2), i32::MAX);
    assert_eq!(add_two(i32::MIN), i32::MIN + 2);
    assert_eq!(add_two(-2), 0);
}

#[test]
fn equal_sides_do_not_hold() {
    let a = Rectangle { width: 8, height: 7 };
    let same_width = Rectangle { width: 8, height: 1 };
    let same_height = Rectangle { width: 1, height: 7 };
    assert!(!a.can_hold(&same_width));
    assert!(!a.can_hold(&same_height));
    assert!(!a.can_hold(&a));
}

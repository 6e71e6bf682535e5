use primer::samples::{hello, Rectangle};

#[test]
fn it_works() {
    let result = primer::samples::add(2, 2);
    assert_eq!(result, 4);
}

#[test]
fn can_hold() {
    let rec1 = Rectangle {
        width: 5,
        height: 4,
    };
    let rec2 = Rectangle {
        width: 2,
        height: 1,
    };
    assert!(rec1.can_hold(&rec2));
}

#[test]
fn cannot_hold() {
    let rec1 = Rectangle {
        width: 5,
        height: 4,
    };
    let rec2 = Rectangle {
        width: 2,
        height: 1,
    };
    assert!(!rec2.can_hold(&rec1));
}

#[test]
fn it_works_result() -> Result<(), String> {
    if primer::samples::add(3, 2) == 5 {
        Ok(())
    } else {
        Err(String::from("It's not 5"))
    }
}

#[test]
fn greeting_is_the_same_for_every_name() {
    assert_eq!(hello("Tasi"), "Hello!");
    assert_eq!(hello(""), "Hello!");
}

#[test]
fn two_and_two_is_four_and_not_five() {
    let result = primer::samples::add(2, 2);
    assert_ne!(result, 5);
    assert_eq!(result, 4);
}

#[test]
fn add_reaches_the_largest_number() {
    assert_eq!(primer::samples::add(usize::MAX, 0), usize::MAX);
    assert_eq!(primer::samples::add(usize::MAX - 7, 7), usize::MAX);
}

#[test]
fn new_keeps_both_sides() {
    let rectangle = Rectangle::new(50, 51);
    assert_eq!(rectangle.width, 50);
    assert_eq!(rectangle.height, 51);
    let wide = Rectangle::new(8, 4);
    assert_eq!((wide.width, wide.height), (8, 4));
}

#[test]
fn can_hold_needs_room_on_both_sides() {
    let outer = Rectangle { width: 5, height: 4 };
    assert!(!outer.can_hold(&Rectangle { width: 5, height: 1 }));
    assert!(!outer.can_hold(&Rectangle { width: 1, height: 4 }));
    assert!(!outer.can_hold(&Rectangle { width: 5, height: 4 }));
    assert!(outer.can_hold(&Rectangle { width: 4, height: 3 }));
    assert!(outer.can_hold(&Rectangle { width: 0, height: 0 }));
}

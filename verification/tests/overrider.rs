use primer::overrider::Point;

#[test]
fn two_points_add_coordinate_by_coordinate() {
    let first = Point { x: 1, y: 4 };
    let second = Point { x: 2, y: 5 };
    let sum = first + second;
    assert_eq!(sum, Point { x: 3, y: 9 });
    assert_eq!(first, Point { x: 1, y: 4 });
    assert_eq!(second, Point { x: 2, y: 5 });
}

#[test]
fn a_number_is_added_to_both_coordinates() {
    let second = Point { x: 2, y: 5 };
    let moved = second + 32;
    assert_eq!(moved, Point { x: 34, y: 37 });
    assert_eq!(second, Point { x: 2, y: 5 });
}

#[test]
fn sums_reach_the_ends_of_the_range() {
    let low = Point { x: i32::MIN, y: -1 };
    let high = Point { x: i32::MAX, y: 1 };
    assert_eq!(low + high, Point { x: -1, y: 0 });
    assert_eq!(Point { x: i32::MAX - 5, y: 0 } + 5, Point { x: i32::MAX, y: 5 });
    assert_eq!(Point { x: 0, y: i32::MIN + 5 } + -5, Point { x: -5, y: i32::MIN });
    assert_eq!(low + 0, low);
}

use primer::structs::{
    calculate_area, calculate_area_struct, calculate_area_struct_borrow, calculate_area_tuple,
    Rectangle,
};

#[test]
fn every_way_gives_the_same_area() {
    let width = 52;
    let height = 6;
    assert_eq!(calculate_area(width, height), 312);
    assert_eq!(calculate_area_tuple((width, height)), 312);
    assert_eq!(calculate_area_struct(Rectangle { width, height }), 312);
    let rectangle = Rectangle { width, height };
    assert_eq!(calculate_area_struct_borrow(&rectangle), 312);
    assert_eq!(rectangle.calculate_area(), 312);
}

#[test]
fn the_method_multiplies_height_and_width() {
    let rectangle = Rectangle { width: 20, height: 44 };
    assert_eq!(rectangle.height(), 44);
    assert_eq!(rectangle.calculate_area(), 880);
}

#[test]
fn a_square_has_equal_sides() {
    let square = Rectangle::square(5);
    assert_eq!(square, Rectangle { width: 5, height: 5 });
    assert_eq!(square.calculate_area(), 25);
    assert_eq!(calculate_area(5, 5), 25);
    assert_eq!(calculate_area_tuple((5, 5)), 25);
}

#[test]
fn a_side_of_nothing_gives_no_area() {
    assert_eq!(Rectangle { width: 0, height: 9 }.calculate_area(), 0);
    assert_eq!(Rectangle::square(0).calculate_area(), 0);
    assert_eq!(calculate_area(u32::MAX, 0), 0);
}

#[test]
fn the_largest_area_still_fits() {
    assert_eq!(calculate_area(u32::MAX, 1), u32::MAX);
    assert_eq!(calculate_area(65_535, 65_537), u32::MAX);
    assert_eq!(Rectangle::square(65_535).calculate_area(), 4_294_836_225);
}

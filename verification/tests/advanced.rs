use primer::advanced::{double_it, increment_counter, make_it_double, returns_closure, sum_up};

#[test]
fn the_counter_grows_by_the_amount() {
    let mut counter = 0;
    increment_counter(&mut counter, 22);
    assert_eq!(counter, 22);
    increment_counter(&mut counter, 0);
    assert_eq!(counter, 22);
    increment_counter(&mut counter, u32::MAX - 22);
    assert_eq!(counter, u32::MAX);
}

#[test]
fn doubling_and_counting_up() {
    assert_eq!(double_it(3), 6);
    assert_eq!(double_it(-4), -8);
    assert_eq!(double_it(0), 0);
    assert_eq!(double_it(i32::MIN / 2), i32::MIN);
    assert_eq!(sum_up(3), 4);
    assert_eq!(sum_up(-1), 0);
    assert_eq!(sum_up(i32::MAX - 1), i32::MAX);
}

#[test]
fn the_function_is_called_twice_and_the_results_multiplied() {
    assert_eq!(make_it_double(double_it, 3), 36);
    assert_eq!(make_it_double(sum_up, 3), 16);
    assert_eq!(make_it_double(|x| x - 10, 3), 49);
    assert_eq!(make_it_double(|_| 0, 3), 0);
}

#[test]
fn the_returned_function_doubles() {
    assert_eq!(returns_closure()(24), 48);
    assert_eq!(returns_closure()(-1), -2);
    assert_eq!(make_it_double(returns_closure(), 5), 100);
}

use primer::patterns::{
    age_report, day_text, five_report, grade_report, ignoring_first_value, leisure_report,
    match_action, move_report, number_name, person_report, shared_name, Action, Person,
};

#[test]
fn every_action_has_its_report() {
    assert_eq!(match_action(Action::Eat { food: "Meat" }), "Eating Meat");
    assert_eq!(match_action(Action::Move { x: 1, y: -9 }), "Moving to x:1, y:-9");
    assert_eq!(match_action(Action::End), "The End");
}

#[test]
fn a_move_may_go_anywhere() {
    assert_eq!(match_action(Action::Move { x: 0, y: 0 }), "Moving to x:0, y:0");
    assert_eq!(
        match_action(Action::Move { x: i32::MIN, y: i32::MAX }),
        "Moving to x:-2147483648, y:2147483647"
    );
    assert_eq!(match_action(Action::Eat { food: "" }), "Eating ");
}

#[test]
fn a_date_is_written_with_a_slash() {
    assert_eq!(day_text(&(15, 8)), "Today is 15/8");
    assert_eq!(day_text(&(0, 0)), "Today is 0/0");
    assert_eq!(day_text(&(255, 255)), "Today is 255/255");
}

#[test]
fn only_the_second_argument_is_used() {
    assert_eq!(ignoring_first_value(2, 3), "I'm using only the 3 value");
    assert_eq!(ignoring_first_value(3, 2), "I'm using only the 2 value");
    assert_eq!(ignoring_first_value(0, -40), "I'm using only the -40 value");
}

#[test]
fn small_numbers_have_names() {
    assert_eq!(number_name(1), "one");
    assert_eq!(number_name(2), "two");
    assert_eq!(number_name(3), "three");
    assert_eq!(number_name(4), "too much");
    assert_eq!(number_name(0), "too much");
    assert_eq!(number_name(-1), "too much");
}

#[test]
fn some_numbers_share_a_name() {
    assert_eq!(shared_name(5), "five or ten or fifty");
    assert_eq!(shared_name(10), "five or ten or fifty");
    assert_eq!(shared_name(50), "five or ten or fifty");
    assert_eq!(shared_name(2), "two?");
    assert_eq!(shared_name(51), "don't know");
    assert_eq!(shared_name(-5), "don't know");
}

#[test]
fn under_age_ends_with_seventeen() {
    assert_eq!(age_report(14), "Underage");
    assert_eq!(age_report(0), "Underage");
    assert_eq!(age_report(17), "Underage");
    assert_eq!(age_report(18), "Can be arrested");
    assert_eq!(age_report(-1), "Can be arrested");
    assert_eq!(age_report(i32::MAX), "Can be arrested");
}

#[test]
fn grades_go_by_their_letter() {
    assert_eq!(grade_report('a'), "Passed");
    assert_eq!(grade_report('c'), "Passed");
    assert_eq!(grade_report('d'), "Failed");
    assert_eq!(grade_report('f'), "Failed");
    assert_eq!(grade_report('g'), "Failed too hard");
    assert_eq!(grade_report('A'), "Failed too hard");
    assert_eq!(grade_report('`'), "Failed too hard");
}

#[test]
fn a_person_is_judged_by_age() {
    assert_eq!(person_report(Person { name: "Tasi Pasin", age: 28 }), "Tasi Pasin can be arrested");
    assert_eq!(person_report(Person { name: "Kid", age: 0 }), "Kid is underage");
    assert_eq!(person_report(Person { name: "Kid", age: 18 }), "Kid is underage");
    assert_eq!(person_report(Person { name: "Adult", age: 19 }), "Adult can be arrested");
    assert_eq!(person_report(Person { name: "Adult", age: 70 }), "Adult can be arrested");
    assert_eq!(
        person_report(Person { name: "Gerald", age: 78 }),
        "Gerald is 78 yo, can be arrested and can retire"
    );
    assert_eq!(
        person_report(Person { name: "", age: 255 }),
        " is 255 yo, can be arrested and can retire"
    );
}

#[test]
fn multiples_of_five_are_told_apart() {
    assert_eq!(five_report(Some(50)), "The value 50 is multiple of 5");
    assert_eq!(five_report(Some(0)), "The value 0 is multiple of 5");
    assert_eq!(five_report(Some(-10)), "The value -10 is multiple of 5");
    assert_eq!(five_report(Some(7)), "The value 7 is not multiple of 5");
    assert_eq!(five_report(Some(-7)), "The value -7 is not multiple of 5");
    assert_eq!(five_report(Some(i32::MIN)), "The value -2147483648 is not multiple of 5");
    assert_eq!(five_report(None), "NaN");
}

#[test]
fn a_move_is_placed_by_its_x() {
    assert_eq!(move_report(Action::Move { x: 5, y: 10 }), "Move to x 5");
    assert_eq!(move_report(Action::Move { x: 1, y: 0 }), "Move to x 1");
    assert_eq!(move_report(Action::Move { x: 10, y: 0 }), "Move somewhere between x 1 and 5");
    assert_eq!(move_report(Action::Move { x: 50, y: 0 }), "Move somewhere between x 1 and 5");
    assert_eq!(move_report(Action::Move { x: 0, y: 3 }), "Some Action");
    assert_eq!(move_report(Action::Move { x: 6, y: 3 }), "Some Action");
    assert_eq!(move_report(Action::Move { x: 51, y: 3 }), "Some Action");
    assert_eq!(move_report(Action::End), "Some Action");
    assert_eq!(move_report(Action::Eat { food: "Meat" }), "Some Action");
}

#[test]
fn leisure_goes_by_the_first_thing_known() {
    assert_eq!(leisure_report(true, Some("cs"), Some(28)), Some(String::from("Coop games are fun!")));
    assert_eq!(leisure_report(false, Some("cs"), Some(28)), Some(String::from("cs is my fav game")));
    assert_eq!(leisure_report(false, None, Some(28)), Some(String::from("I'm 28 years young")));
    assert_eq!(leisure_report(false, None, Some(29)), Some(String::from("I'm 29 years young")));
    assert_eq!(leisure_report(false, None, Some(30)), Some(String::from("I'm old")));
    assert_eq!(leisure_report(false, None, None), None);
}

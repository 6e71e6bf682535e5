//! A screen put together from a front end and a back end, and a record that
//! keeps its year to itself.

use vstd::prelude::*;

verus! {

/// What the front end reports when it shows something to the user.
pub fn shows_to_user() -> (report: String)
    ensures
        report@ == "Called shows_to_user()"@,
{
    String::from_str("Called shows_to_user()")
}

/// What the front end reports when it asks the user for input.
pub fn get_user_input() -> (report: String)
    ensures
        report@ == "Called get_user_input()"@,
{
    String::from_str("Called get_user_input()")
}

/// The back end's processing step. It has nothing to do.
pub fn process_data() {
}

/// The back end's storing step. It has nothing to do.
pub fn persistence_data() {
}

/// What displaying the screen reports, in order: the front end shows
/// something to the user twice and then asks for input; the work of the two
/// programmers that follows reports nothing.
pub open spec fn screen_reports() -> Seq<Seq<char>> {
    seq![
        "Called shows_to_user()"@,
        "Called shows_to_user()"@,
        "Called get_user_input()"@,
    ]
}

/// Displays the screen and returns what the front end reported on the way.
pub fn display_screen() -> (reports: Vec<String>)
    ensures
        reports@.len() == 3,
        forall|i: int| 0 <= i < 3 ==> (#[trigger] reports@[i])@ == screen_reports()[i],
{
    let mut reports: Vec<String> = Vec::new();
    reports.push(shows_to_user());
    reports.push(shows_to_user());
    reports.push(get_user_input());
    do_front_end();
    do_back_end();
    reports
}

/// The front end programmer's work. There is none yet.
pub fn do_front_end() {
}

/// The back end programmer's work: process the data, then store it.
pub fn do_back_end() {
    process_data();
    persistence_data();
}

/// A named record with a year that only its own methods can read.
#[derive(Debug)]
pub struct Newmodule {
    pub name: String,
    year: u16,
}

impl Newmodule {
    /// The name of the record.
    pub closed spec fn name(&self) -> Seq<char> {
        self.name@
    }

    /// The year the record was made with.
    pub closed spec fn year(&self) -> u16 {
        self.year
    }

    /// A record with the given name and year.
    pub fn init(value: &str, year: u16) -> (record: Newmodule)
        ensures
            record.name() == value@,
            record.year() == year,
    {
        Newmodule { name: String::from_str(value), year }
    }

    /// The age of the record in 2024, in years. A record from a later year
    /// has no age.
    pub fn get_age(&self) -> (age: u16)
        requires
            self.year() <= 2024,
        ensures
            age == 2024 - self.year(),
    {
        2024 - self.get_year()
    }

    fn get_year(&self) -> (year: u16)
        ensures
            year == self.year(),
    {
        self.year
    }
}

} // verus!

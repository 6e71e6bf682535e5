use primer::macros::{hello_macro_text, HelloMacro, Pancakes};

struct Waffles;

impl HelloMacro for Waffles {
    fn hello_macro() -> String {
        hello_macro_text("Waffles")
    }
}

#[test]
fn pancakes_introduce_themselves() {
    assert_eq!(Pancakes::hello_macro(), "Hello, Macro! My name is Pancakes!");
}

#[test]
fn any_name_can_be_greeted() {
    assert_eq!(Waffles::hello_macro(), "Hello, Macro! My name is Waffles!");
    assert_eq!(hello_macro_text(""), "Hello, Macro! My name is !");
}

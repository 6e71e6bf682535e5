use primer::depender::{Item, PrintBox};

struct Plain(String);

impl PrintBox for Plain {
    fn to_text(&self) -> String {
        self.0.clone()
    }
}

#[test]
fn an_item_is_written_with_its_rarity() {
    assert_eq!(Item::new("Sword", "Rare").to_text(), "Sword (Rare)");
    assert_eq!(Item::new("", "").to_text(), " ()");
}

#[test]
fn an_item_is_printed_in_a_box() {
    let item = Item::new("Sword", "Rare");
    assert_eq!(
        item.outline_print(),
        vec![
            "****************",
            "*              *",
            "* Sword (Rare) *",
            "*              *",
            "****************",
        ]
    );
}

#[test]
fn the_smallest_box_holds_nothing() {
    assert_eq!(Plain(String::new()).outline_print(), vec!["****", "*  *", "*  *", "*  *", "****"]);
}

#[test]
fn the_box_is_as_wide_as_the_text_has_bytes() {
    let lines = Plain(String::from("caf\u{e9}")).outline_print();
    assert_eq!(lines, vec!["*********", "*       *", "* caf\u{e9} *", "*       *", "*********"]);
}

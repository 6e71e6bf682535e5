//! A screen of components that each know how to draw themselves.

use vstd::prelude::*;

verus! {

/// Something that can be drawn.
pub trait Draw {
    /// Draws the component and returns what it shows.
    fn draw(&self) -> String;
}

/// `shown` is something that drawing `component` may show: a result that
/// the contract of its `draw` allows.
pub open spec fn drawn_by<T: Draw + ?Sized>(component: &T, shown: String) -> bool {
    call_ensures(T::draw, (component,), shown)
}

fn draw_one<T: Draw + ?Sized>(component: &T) -> (shown: String)
    ensures
        drawn_by(component, shown),
{
    component.draw()
}

/// A screen whose components may be of different types.
pub struct Screen {
    pub components: Vec<Box<dyn Draw>>,
}

impl Screen {
    /// Draws every component once, first to last, and returns what each
    /// showed, in that order.
    pub fn run(&self) -> (shown: Vec<String>)
        ensures
            shown@.len() == self.components@.len(),
            forall|i: int|
                0 <= i < shown@.len() ==> drawn_by::<dyn Draw>(
                    &*self.components@[i],
                    #[trigger] shown@[i],
                ),
    {
        let mut shown: Vec<String> = Vec::new();
        let mut i: usize = 0;
        while i < self.components.len()
            invariant
                i <= self.components@.len(),
                shown@.len() == i,
                forall|k: int|
                    0 <= k < i ==> drawn_by::<dyn Draw>(
                        &*self.components@[k],
                        #[trigger] shown@[k],
                    ),
            decreases self.components@.len() - i,
        {
            let drawing = draw_one::<dyn Draw>(&*self.components[i]);
            shown.push(drawing);
            i = i + 1;
        }
        shown
    }
}

/// A screen whose components are all of one type.
pub struct ScreenGenT<T: Draw> {
    pub components: Vec<T>,
}

impl<T> ScreenGenT<T> where T: Draw {
    /// Draws every component once, first to last, and returns what each
    /// showed, in that order.
    pub fn run(&self) -> (shown: Vec<String>)
        ensures
            shown@.len() == self.components@.len(),
            forall|i: int|
                0 <= i < shown@.len() ==> drawn_by(&self.components@[i], #[trigger] shown@[i]),
    {
        let mut shown: Vec<String> = Vec::new();
        let mut i: usize = 0;
        while i < self.components.len()
            invariant
                i <= self.components@.len(),
                shown@.len() == i,
                forall|k: int|
                    0 <= k < i ==> drawn_by(&self.components@[k], #[trigger] shown@[k]),
            decreases self.components@.len() - i,
        {
            let drawing = draw_one(&self.components[i]);
            shown.push(drawing);
            i = i + 1;
        }
        shown
    }
}

/// A button.
pub struct Button {
    pub width: u32,
    pub height: u32,
    pub label: String,
}

impl Button {
    /// What happens when the button is clicked: nothing yet.
    pub fn on_click(&self) {
    }
}

impl Draw for Button {
    fn draw(&self) -> (shown: String)
        ensures
            shown@ == "Drawing a Button"@,
    {
        String::from_str("Drawing a Button")
    }
}

/// A box to select one of several options from.
pub struct SelectBox {
    pub width: u32,
    pub height: u32,
    pub options: Vec<String>,
}

impl Draw for SelectBox {
    fn draw(&self) -> (shown: String)
        ensures
            shown@ == "Drawing a SelectBox"@,
    {
        String::from_str("Drawing a SelectBox")
    }
}

} // verus!

//! A restaurant front of house: seating, orders and breakfast.
use vstd::prelude::*;
use vstd::string::*;

verus! {

pub struct Breakfast {
    pub toast: String,
    seasonal_fruit: String,
}

impl Breakfast {
    /// The summer breakfast: the toast asked for, with peaches.
    pub fn summer(toast: &str) -> (r: Breakfast)
        ensures
            r.toast_text() == toast@,
            r.fruit() == "peaches"@,
    {
        Breakfast { toast: String::from_str(toast), seasonal_fruit: String::from_str("peaches") }
    }

    /// The toast of this breakfast.
    pub closed spec fn toast_text(&self) -> Seq<char> {
        self.toast@
    }

    /// The seasonal fruit served with this breakfast.
    pub closed spec fn fruit(&self) -> Seq<char> {
        self.seasonal_fruit@
    }

    /// The seasonal fruit served with this breakfast.
    pub fn seasonal_fruit(&self) -> (r: &str)
        ensures
            r@ == self.fruit(),
    {
        self.seasonal_fruit.as_str()
    }
}

#[derive(Clone, Copy, PartialEq, Eq, Debug, Structural)]
pub enum Appetizer {
    Soup,
    Salad,
}

pub fn add_to_waitlist() {
}

pub fn seat_at_table() {
}

pub fn take_order() {
}

fn take_payment() {
}

fn server_order() {
    seat_at_table();
}

fn fix_incorrect_order() {
    take_order();
    server_order();
}

/// A guest joins the waitlist and orders the summer breakfast on rye, then
/// changes the toast to wheat; the meal is returned.
pub fn eat_at_restaurant() -> (r: Breakfast)
    ensures
        r.toast_text() == "Wheat"@,
        r.fruit() == "peaches"@,
{
    add_to_waitlist();
    let mut meal = Breakfast::summer("Rye");
    meal.toast = String::from_str("Wheat");
    meal
}

} // verus!

use web_server::coins::{plus_one, value_in_cents, Coin, UsState};
use web_server::colors::{mix, PrimaryColor, SecondaryColor};
use web_server::http::{page, response, route, status_line, Route};
use web_server::generics::{largest_char, largest_i32, longest, ImportantExcerpt, Point as Pair};
use web_server::mybox::{List, MyBox};
use web_server::operators::{Dog, Millimeters, Meters, Point};
use web_server::ownership::{
    calc_length, calc_length_v2, edit_borrowed_variable, find_first_word, gives_ownership,
    takes_and_gives_back,
};
use web_server::restaurant::{eat_at_restaurant, Appetizer, Breakfast};
use web_server::shapes::{area, build_user, Rectangle};
use web_server::summary::{return_summarizable, NewArticle, Summary, Tweet};

#[test]
fn first_word_stops_at_the_first_space() {
    assert_eq!(find_first_word("Rust is little difficult to learn."), "Rust");
    assert_eq!(find_first_word("Good Morning!"), "Good");
    assert_eq!(find_first_word("single"), "single");
    assert_eq!(find_first_word(""), "");
    assert_eq!(find_first_word(" lead"), "");
}

#[test]
fn largest_values() {
    assert_eq!(largest_i32(&[34, 50, 25, 100, 65]), 100);
    assert_eq!(largest_i32(&[-3]), -3);
    assert_eq!(largest_char(&['a', 'b', 'f', 'y']), 'y');
}

#[test]
fn points_mix_and_add() {
    let p = Pair { x: 5, y: 10.4 };
    let q = Pair { x: "hello", y: 'c' };
    assert_eq!(*p.x(), 5);
    let m = p.mixup(q);
    assert_eq!(m.x, 5);
    assert_eq!(m.y, 'c');
    assert_eq!(Point { x: 1, y: 0 }.add(Point { x: 2, y: 3 }), Point { x: 3, y: 3 });
    assert_eq!(Millimeters(1000).add(Meters(1)), Millimeters(2000));
    assert_eq!(Dog::baby_name(), "Spot");
}

#[test]
fn longest_prefers_the_second_on_a_tie() {
    assert_eq!(longest("abcd", "xyz"), "abcd");
    assert_eq!(longest("ab", "xy"), "xy");
    let i = ImportantExcerpt { part: "Call me Ishmael" };
    assert_eq!(i.level(), 3);
}

#[test]
fn strings_moved_and_edited() {
    let mut s = String::from("Hello");
    edit_borrowed_variable(&mut s);
    assert_eq!(s, "Hello, World!");
    assert_eq!(gives_ownership(), "hello");
    assert_eq!(takes_and_gives_back(String::from("good")), "good");
    let (s, len) = calc_length(String::from("héllo"));
    assert_eq!(s, "héllo");
    assert_eq!(len, 6);
    assert_eq!(calc_length_v2(&String::from("test")), 4);
}

#[test]
fn coins_and_options() {
    assert_eq!(value_in_cents(Coin::Penny), 1);
    assert_eq!(value_in_cents(Coin::Nickel), 5);
    assert_eq!(value_in_cents(Coin::Dime), 10);
    assert_eq!(value_in_cents(Coin::Quarter(UsState::Alaska)), 25);
    assert_eq!(plus_one(Some(1)), Some(2));
    assert_eq!(plus_one(None), None);
}

#[test]
fn every_mix_is_orange() {
    assert_eq!(mix(PrimaryColor::Red, PrimaryColor::Yellow), SecondaryColor::Orange);
    assert_eq!(mix(PrimaryColor::Blue, PrimaryColor::Blue), SecondaryColor::Orange);
}

#[test]
fn breakfast_orders() {
    let b = Breakfast::summer("Rye");
    assert_eq!(b.toast, "Rye");
    assert_eq!(b.seasonal_fruit(), "peaches");
    let meal = eat_at_restaurant();
    assert_eq!(meal.toast, "Wheat");
    assert_eq!(meal.seasonal_fruit(), "peaches");
    assert_ne!(Appetizer::Soup, Appetizer::Salad);
}

#[test]
fn rectangles_and_users() {
    let rect = Rectangle { width: 30, height: 50 };
    assert_eq!(rect.area(), 1500);
    assert_eq!(area(&rect), 1500);
    assert!(rect.can_hold(&Rectangle { width: 10, height: 40 }));
    assert!(!rect.can_hold(&Rectangle { width: 60, height: 45 }));
    assert_eq!(Rectangle::square(3).area(), 9);
    let u = build_user(String::from("a"), String::from("b"));
    assert_eq!(u.email, "a");
    assert_eq!(u.username, "b");
    assert_eq!(u.sign_in_count, 1);
    assert!(u.active);
}

#[test]
fn summaries() {
    let tweet = Tweet {
        username: String::from("horse_book"),
        content: String::from("of course, as you probably already know, people"),
        reply: false,
        retweet: false,
    };
    assert_eq!(
        tweet.summarize(),
        "horse_book: of course, as you probably already know, people"
    );
    assert_eq!(tweet.test(), "Default impl in Summary trait.");
    let article = NewArticle {
        headline: String::from("Penguins win the Stanley Cup Championship!"),
        location: String::from("Pittsburgh, PA, USA"),
        author: String::from("Iceburgh"),
        content: String::from("The Pittsburgh Penguins once again are the best hockey team in the NHL."),
    };
    assert_eq!(
        article.summarize(),
        "Penguins win the Stanley Cup Championship!, by Iceburgh (Pittsburgh, PA, USA)"
    );
    assert_eq!(article.test(), "impl trait func test in NewArticle");
    assert_eq!(return_summarizable().summarize(), "Hello, world: of course, as you probably already know, people");
}

#[test]
fn boxes_and_lists() {
    let b = MyBox::new(5);
    assert_eq!(*b.value(), 5);
    let l = List::Cons(1, Box::new(List::Cons(2, Box::new(List::Nil))));
    assert!(matches!(l, List::Cons(1, _)));
}

#[test]
fn requests_are_routed_by_their_first_line() {
    assert_eq!(route("GET / HTTP/1.1\r\nHost: x\r\n\r\n"), Route::Hello);
    assert_eq!(route("GET /sleep HTTP/1.1\r\n"), Route::Slow);
    assert_eq!(route("GET /other HTTP/1.1\r\n"), Route::NotFound);
    assert_eq!(route("GET / HTTP/1.0\r\n"), Route::NotFound);
    assert_eq!(route(""), Route::NotFound);
    assert_eq!(status_line(Route::Slow), "HTTP/1.1 200 OK\r\n\r\n");
    assert_eq!(page(Route::NotFound), "404.html");
    assert_eq!(
        response(Route::NotFound, "gone"),
        "HTTP/1.1 404 NOT FOUND\r\n\r\ngone"
    );
}

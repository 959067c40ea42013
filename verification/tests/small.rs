use hello::adder::Rectangle;
use hello::basics::{
    banner, calc_string_len, change_str, loop_label_example, loop_return_example, no_dangle,
    LoopEvent,
};
use hello::coins::{plus_one, remark, value_in_cents, Coin, UsState};
use hello::enums::Message;
use hello::generics::{largest, Point};
use hello::inventory::{Inventory, ShirtColor};
use hello::shapes::{area_dims, area_rect, area_w_h, build_user};
use hello::smart_pointers::MyBox;
use hello::text::last_char_of_first_line;

#[test]
fn banner_frames_the_title() {
    let delim = "--------------------------------------------------------------------";
    assert_eq!(delim.len(), 68);
    assert_eq!(banner("Shadowing"), format!("\n{delim}\nShadowing\n{delim}"));
    assert_eq!(banner(""), format!("\n{delim}\n\n{delim}"));
}

#[test]
fn the_counting_loop_ends_at_twenty() {
    assert_eq!(loop_return_example(), 20);
}

#[test]
fn the_nested_loops_report_every_step() {
    let (events, count) = loop_label_example();
    assert_eq!(count, 2);
    assert_eq!(
        events,
        vec![
            LoopEvent::Count(0),
            LoopEvent::Remaining(10),
            LoopEvent::Remaining(9),
            LoopEvent::LeftInner,
            LoopEvent::Count(1),
            LoopEvent::Remaining(10),
            LoopEvent::Remaining(9),
            LoopEvent::LeftInner,
            LoopEvent::Count(2),
            LoopEvent::Remaining(10),
            LoopEvent::LeftOuter,
        ]
    );
    let left_inner = events.iter().filter(|&&event| event == LoopEvent::LeftInner).count();
    let left_outer = events.iter().filter(|&&event| event == LoopEvent::LeftOuter).count();
    assert_eq!((left_inner, left_outer), (2, 1));
    assert_eq!(events.last(), Some(&LoopEvent::LeftOuter));
}

#[test]
fn string_length_counts_bytes() {
    assert_eq!(calc_string_len(&String::from("hello")), 5);
    assert_eq!(calc_string_len(&String::new()), 0);
    assert_eq!(calc_string_len(&String::from("\u{417}\u{434}\u{440}")), 6);
}

#[test]
fn change_str_appends_the_world() {
    let mut s = String::from("hello");
    change_str(&mut s);
    assert_eq!(s, "hello, world!");
    let mut empty = String::new();
    change_str(&mut empty);
    assert_eq!(empty, ", world!");
}

#[test]
fn no_dangle_hands_over_its_string() {
    assert_eq!(no_dangle(), "Hello");
}

#[test]
fn coins_have_their_worth() {
    assert_eq!(value_in_cents(Coin::Penny), 1);
    assert_eq!(value_in_cents(Coin::Nickel), 5);
    assert_eq!(value_in_cents(Coin::Dime), 10);
    assert_eq!(value_in_cents(Coin::Quarter(UsState::Alaska)), 25);
    assert_eq!(value_in_cents(Coin::Quarter(UsState::Alabama)), 25);
}

#[test]
fn pennies_and_quarters_are_remarked_on() {
    assert_eq!(remark(Coin::Penny), Some("Lucky penny!".to_string()));
    assert_eq!(remark(Coin::Nickel), None);
    assert_eq!(remark(Coin::Dime), None);
    assert_eq!(
        remark(Coin::Quarter(UsState::Alaska)),
        Some(format!("State quarter from {:?}", UsState::Alaska))
    );
    assert_eq!(
        remark(Coin::Quarter(UsState::Alabama)),
        Some("State quarter from Alabama".to_string())
    );
    assert_eq!(UsState::Alaska.name(), "Alaska");
    assert_eq!(UsState::Alabama.name(), "Alabama");
}

#[test]
fn plus_one_counts_on() {
    assert_eq!(plus_one(Some(5)), Some(6));
    assert_eq!(plus_one(None), None);
    assert_eq!(plus_one(Some(-1)), Some(0));
    assert_eq!(plus_one(Some(i32::MAX - 1)), Some(i32::MAX));
}

#[test]
fn only_quit_is_answered() {
    assert_eq!(Message::Quit.call(), Some("QUITTER"));
    assert_eq!(Message::Move { x: 3, y: 2 }.call(), None);
    assert_eq!(Message::Write(String::from("HELLO WORLD")).call(), None);
    assert_eq!(Message::ChangeColor(32, 32, 147).call(), None);
}

#[test]
fn largest_finds_the_maximum() {
    assert_eq!(*largest(&[34, 50, 25, 100, 65]), 100);
    assert_eq!(*largest(&[102, 34, 6000, 89, 54, 2, 43, 8]), 6000);
    assert_eq!(*largest(&['a', 'c', 't', 't', 'q', 'f', 'e']), 't');
    assert_eq!(*largest(&[7]), 7);
    assert_eq!(*largest(&[-3, -1, -2]), -1);
}

#[test]
fn largest_keeps_the_earliest_of_equals() {
    let list = [(1, 'a'), (3, 'b'), (3, 'c'), (2, 'd')];
    let keys: Vec<MyKey> = list.iter().map(|&(key, tag)| MyKey { key, tag }).collect();
    let best = largest(&keys);
    assert_eq!((best.key, best.tag), (3, 'b'));
}

struct MyKey {
    key: u32,
    tag: char,
}

impl PartialEq for MyKey {
    fn eq(&self, other: &MyKey) -> bool {
        self.key == other.key
    }
}

impl PartialOrd for MyKey {
    fn partial_cmp(&self, other: &MyKey) -> Option<std::cmp::Ordering> {
        self.key.partial_cmp(&other.key)
    }
}

#[test]
fn a_point_gives_its_first_coordinate() {
    let point = Point { x: 5, y: "four" };
    assert_eq!(*point.x(), 5);
    assert_eq!(point.y, "four");
}

#[test]
fn the_giveaway_follows_preference_then_stock() {
    let store = Inventory {
        shirts: vec![ShirtColor::Blue, ShirtColor::Red, ShirtColor::Blue],
    };
    assert_eq!(store.giveaway(Some(ShirtColor::Red)), ShirtColor::Red);
    assert_eq!(store.giveaway(Some(ShirtColor::Blue)), ShirtColor::Blue);
    assert_eq!(store.giveaway(None), ShirtColor::Blue);
    assert_eq!(store.most_stocked(), ShirtColor::Blue);
}

#[test]
fn most_stocked_is_red_only_when_red_leads() {
    let red = Inventory { shirts: vec![ShirtColor::Red, ShirtColor::Blue, ShirtColor::Red] };
    assert_eq!(red.most_stocked(), ShirtColor::Red);
    assert_eq!(red.giveaway(None), ShirtColor::Red);
    let tie = Inventory { shirts: vec![ShirtColor::Red, ShirtColor::Blue] };
    assert_eq!(tie.most_stocked(), ShirtColor::Blue);
    let empty = Inventory { shirts: vec![] };
    assert_eq!(empty.most_stocked(), ShirtColor::Blue);
}

#[test]
fn a_new_user_is_active_and_signed_in_once() {
    let user = build_user(
        String::from("secondaryuser123@example.com"),
        String::from("secondaryuser123"),
    );
    assert!(user.active);
    assert_eq!(user.username, "secondaryuser123");
    assert_eq!(user.email, "secondaryuser123@example.com");
    assert_eq!(user.sign_in_count, 1);
}

#[test]
fn areas_are_width_times_height() {
    assert_eq!(area_w_h(30, 50), 1500);
    assert_eq!(area_dims((30, 50)), 1500);
    assert_eq!(area_rect(Rectangle { height: 50, width: 30 }), 1500);
    assert_eq!(area_w_h(65535, 65537), u32::MAX);
    assert_eq!(area_w_h(0, u32::MAX), 0);
}

#[test]
fn my_box_hands_out_its_value() {
    let x = 5;
    let y = MyBox::new(x);
    assert_eq!(5, *y);
    let m = MyBox::new(String::from("Rust"));
    assert_eq!(m.len(), 4);
    assert_eq!(&*m, "Rust");
}

#[test]
fn last_char_of_first_line_reads_the_first_line_only() {
    assert_eq!(last_char_of_first_line("this is a test string"), Some('g'));
    assert_eq!(last_char_of_first_line("Hello, world\nHow are you today?"), Some('d'));
    assert_eq!(last_char_of_first_line(""), None);
    assert_eq!(last_char_of_first_line("\nhi"), None);
    assert_eq!(last_char_of_first_line("ab\r\ncd"), Some('b'));
    assert_eq!(last_char_of_first_line("ab\r"), Some('\r'));
    for text in ["x", "\r\n", "a\n", "\u{e9}\u{e8}\nz", "\n"] {
        assert_eq!(
            last_char_of_first_line(text),
            text.lines().next().and_then(|line| line.chars().last())
        );
    }
}

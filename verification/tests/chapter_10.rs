use the_book::chapter_10;
use the_book::chapter_10::generics::{self, ComboPoint, Coordinate, Point};
use the_book::chapter_10::lifetimes::{self, longest, ImportantExcerpt};
use the_book::chapter_10::traits::{
    self, plain_greet, some_function, Civilian, Doctor, PersonTitle, Soldier,
};

#[test]
fn a_point_hands_out_its_first_coordinate() {
    assert_eq!(*Point { x: 5, y: 7 }.x(), 5);
    assert_eq!(*Point { x: "left", y: "right" }.x(), "left");
    let combo = ComboPoint { x: 2, y: "two" };
    assert_eq!((combo.x, combo.y), (2, "two"));
}

#[test]
fn a_coordinate_is_read_out() {
    assert_eq!(generics::run(), Some(12));
    let nowhere: Coordinate<i32> = Coordinate::Absent;
    assert!(matches!(nowhere, Coordinate::Absent));
}

#[test]
fn longest_goes_by_bytes() {
    assert_eq!(longest("dpad", "nunyuh"), "nunyuh");
    assert_eq!(longest("long string is long", "xyz"), "long string is long");
    assert_eq!(longest("\u{e9}\u{e9}", "abc"), "\u{e9}\u{e9}");
}

#[test]
fn longest_of_equals_is_the_second() {
    assert_eq!(longest("abc", "xyz"), "xyz");
    assert_eq!(longest("", ""), "");
}

#[test]
fn the_lifetimes_demonstration() {
    assert_eq!(
        lifetimes::run(),
        ("nunyuh".to_string(), "long string is long".to_string(), "In a galaxy far".to_string())
    );
    let passage = String::from("In a galaxy far, far away");
    let excerpt = ImportantExcerpt { part: &passage[..15] };
    assert_eq!(excerpt.part, "In a galaxy far");
}

#[test]
fn titles_go_before_names() {
    assert_eq!(Civilian { name: "D-Pad".to_string() }.get_title(), "Mr. D-Pad");
    assert_eq!(Doctor { name: "Sneed".to_string() }.get_title(), "Dr. Sneed");
    assert_eq!(Soldier { name: "Pile".to_string() }.get_title(), "Private Pile");
}

#[test]
fn only_the_doctor_has_a_greeting_of_their_own() {
    assert_eq!(Civilian { name: "D-Pad".to_string() }.greet(), "Hello, I am Mr. D-Pad.");
    assert_eq!(Doctor { name: "Sneed".to_string() }.greet(), "Greetings! They call me Dr. Sneed.");
    assert_eq!(Soldier { name: "Pile".to_string() }.greet(), "Hello, I am Private Pile.");
    assert_eq!(plain_greet("nobody"), "Hello, I am nobody.");
}

#[test]
fn some_function_is_forty_two() {
    assert_eq!(some_function(&String::from("Testing"), &vec![[1, 2, 3]]), 42);
    assert_eq!(some_function(&7, &'x'), 42);
}

#[test]
fn the_traits_demonstration() {
    assert_eq!(
        traits::run(),
        (
            "Hello, I am Mr. D-Pad.".to_string(),
            "Greetings! They call me Dr. Sneed.".to_string(),
            "Hello, I am Private Pile.".to_string(),
            42
        )
    );
}

#[test]
fn the_chapter_shows_its_three_parts() {
    let (first, second, third) = chapter_10::run();
    assert_eq!(first, Some(12));
    assert_eq!(second, traits::run());
    assert_eq!(third, lifetimes::run());
}

use the_book::chapter_3;
use the_book::chapter_3::compound_types;
use the_book::chapter_3::constants;
use the_book::chapter_3::loops;
use the_book::chapter_3::primitive_types;
use the_book::chapter_3::scope;
use the_book::chapter_3::shadowing;

#[test]
fn loops_count_as_far_as_they_say() {
    assert_eq!(loops::loop_sample(), 25);
    assert_eq!(loops::for_sample(), vec![10, 20, 30, 40, 50]);
    assert_eq!(loops::while_sample(), 255);
    assert_eq!(loops::run(), (25, vec![10, 20, 30, 40, 50], 255));
}

#[test]
fn arrays_pick_the_third_and_the_first() {
    assert_eq!(compound_types::arrays(), ("Orange", "Apple"));
}

#[test]
fn an_alien_abducts_a_human() {
    assert_eq!(compound_types::tuples(), "  Alice was abducted by Zorb");
    let zorb = ("Zorb".to_string(), 184, true);
    let alice = ("Alice".to_string(), 30, false);
    assert_eq!(compound_types::encounter(&zorb, &alice), "  Zorb was abducted by Alice");
}

#[test]
fn two_of_a_kind_are_good_pals() {
    let alice = ("Alice".to_string(), 30, false);
    let bob = ("Bob".to_string(), 31, false);
    assert_eq!(compound_types::encounter(&alice, &bob), "  Alice and Bob are good pals.");
    let zorb = ("Zorb".to_string(), 184, true);
    let zed = ("Zed".to_string(), 9, true);
    assert_eq!(compound_types::encounter(&zorb, &zed), "  Zorb and Zed are good pals.");
}

#[test]
fn strings_grow_and_are_sliced() {
    let (reinhardt, most_played, ticker, asset) = compound_types::strings();
    assert_eq!(reinhardt, "Hammer DOWN!");
    assert_eq!(most_played, "Reinhardt");
    assert_eq!(ticker, "ESM24");
    assert_eq!(asset, "ES");
}

#[test]
fn integers_add_in_a_block() {
    assert_eq!(primitive_types::integers(), (-42, 64, 22));
    assert_eq!(primitive_types::run(), (-42, 64, 22));
}

#[test]
fn cards_are_laid_out_line_by_line() {
    assert_eq!(
        scope::card("you", "\n ~~", "Hello", "me"),
        "\n  TO:   you\n ~~\n    Hello\n    -- me\n \n ~~"
    );
    let (wish, thanks) = scope::my_func();
    assert_eq!(
        wish,
        "\n  TO:   OUTER SCOPE\n  --------------------\n    Happy birthday\n    -- INNER SCOPE\n \n  --------------------"
    );
    assert_eq!(
        thanks,
        "\n  TO:   INNER SCOPE\n  --------------------\n    Thank you\n    -- OUTER SCOPE\n \n  --------------------"
    );
    assert_eq!(scope::run(), (wish, thanks));
}

#[test]
fn a_shadowed_value_stays_in_reach_of_its_reference() {
    assert_eq!(shadowing::run(), (74, 25));
}

#[test]
fn the_constant_is_three() {
    assert_eq!(constants::NUM_THREADS, 3);
    assert_eq!(constants::run(), 3);
}

#[test]
fn the_chapter_gathers_its_parts() {
    let parts = chapter_3::run();
    assert_eq!(parts.compound_types.0, ("Orange", "Apple"));
    assert_eq!(parts.compound_types.1, "  Alice was abducted by Zorb");
    assert_eq!(parts.compound_types.2 .2, "ESM24");
    assert_eq!(parts.primitive_types, (-42, 64, 22));
    assert_eq!(parts.scope, scope::my_func());
    assert_eq!(parts.constants, 3);
    assert_eq!(parts.shadowing, (74, 25));
    assert_eq!(parts.loops, (25, vec![10, 20, 30, 40, 50], 255));
}

use std::collections::HashMap;
use the_book::chapter_8;
use the_book::chapter_8::hash_map;
use the_book::chapter_8::string_demo;

#[test]
fn the_user_name_and_its_start() {
    assert_eq!(string_demo::run(), ("dpad_29".to_string(), "dpad".to_string()));
}

#[test]
fn the_first_player_scores() {
    let (players, scores) = hash_map::run();
    assert_eq!(players, vec!["chad", "brad"]);
    let mut expected: HashMap<u64, u8> = HashMap::new();
    expected.insert(0, 1);
    expected.insert(1, 0);
    assert_eq!(scores, expected);
}

#[test]
fn the_chapter_makes_both() {
    let (strings, (players, scores)) = chapter_8::run();
    assert_eq!(strings.0, "dpad_29");
    assert_eq!(players.len(), 2);
    assert_eq!(scores.get(&0), Some(&1));
    assert_eq!(scores.get(&1), Some(&0));
    assert_eq!(scores.len(), 2);
}

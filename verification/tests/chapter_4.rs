use the_book::chapter_4::slice_samples::{get_first_word, run};

#[test]
fn first_word_ends_at_the_first_space() {
    assert_eq!(get_first_word(&"Hell no, world!".to_string()), "Hell");
    assert_eq!(get_first_word(&"a b c".to_string()), "a");
}

#[test]
fn first_word_of_one_word_is_the_word() {
    assert_eq!(get_first_word(&"world!".to_string()), "world!");
    assert_eq!(get_first_word(&String::new()), "");
}

#[test]
fn first_word_after_a_leading_space_is_empty() {
    assert_eq!(get_first_word(&" world".to_string()), "");
    assert_eq!(get_first_word(&" ".to_string()), "");
}

#[test]
fn first_word_keeps_characters_of_several_bytes() {
    assert_eq!(get_first_word(&"h\u{e9}llo w\u{f6}rld".to_string()), "h\u{e9}llo");
    assert_eq!(get_first_word(&"\u{65e5}\u{672c}\u{8a9e}".to_string()), "\u{65e5}\u{672c}\u{8a9e}");
    assert_eq!(get_first_word(&"tab\tis no space".to_string()), "tab\tis");
    assert_eq!(get_first_word(&"wide\u{3000}gap here".to_string()), "wide\u{3000}gap");
}

#[test]
fn run_finds_hell() {
    assert_eq!(run(), "Hell");
}

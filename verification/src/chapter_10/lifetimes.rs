use crate::text::{first_of, lemma_first_of, prefix_before};
use vstd::prelude::*;
use vstd::string::*;
use vstd::utf8::*;

verus! {

/// A part of a text that lives elsewhere.
pub struct ImportantExcerpt<'a> {
    pub part: &'a str,
}

/// The longer of two texts by their length in bytes, the second where they are equal.
pub fn longest<'a>(x: &'a str, y: &'a str) -> (longer: &'a str)
    ensures
        longer@ == if x.len() > y.len() {
            x@
        } else {
            y@
        },
{
    if x.len() > y.len() {
        x
    } else {
        y
    }
}

/// The longer of `dpad` and `nunyuh`, the longer of `long string is long`
/// and `xyz`, and the part of `In a galaxy far, far away` before its comma.
pub fn run() -> (found: (String, String, String))
    ensures
        found.0@ == "nunyuh"@,
        found.1@ == "long string is long"@,
        found.2@ == "In a galaxy far"@,
{
    let first_name: String = "dpad".to_owned();
    let last_name: String = "nunyuh".to_owned();
    proof {
        reveal_strlit("dpad");
        reveal_strlit("nunyuh");
        is_ascii_chars_encode_utf8(first_name@);
        is_ascii_chars_encode_utf8(last_name@);
    }
    let most_chars: &str = longest(first_name.as_str(), last_name.as_str());
    let name = most_chars.to_owned();

    let string1 = "long string is long".to_owned();
    let string2 = "xyz".to_owned();
    proof {
        reveal_strlit("long string is long");
        reveal_strlit("xyz");
        is_ascii_chars_encode_utf8(string1@);
        is_ascii_chars_encode_utf8(string2@);
    }
    let result = longest(string1.as_str(), string2.as_str());
    let long = result.to_owned();

    let passage: String = "In a galaxy far, far away".to_owned();
    let some_words: &str = prefix_before(passage.as_str(), 0x2c);
    let i = ImportantExcerpt { part: some_words };
    proof {
        reveal_strlit("In a galaxy far, far away");
        reveal_strlit("In a galaxy far");
        is_ascii_chars_encode_utf8(passage@);
        lemma_first_of(encode_utf8(passage@), 0x2c, 15);
        assert(passage@.take(15) =~= "In a galaxy far"@);
    }
    (name, long, i.part.to_owned())
}

} // verus!

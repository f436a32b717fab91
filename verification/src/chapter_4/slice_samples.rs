use crate::text::{first_of, lemma_first_of, prefix_before};
use vstd::prelude::*;
use vstd::string::*;
use vstd::utf8::*;

verus! {

/// The first word of a sentence: the text before its first space, the whole
/// sentence where it holds none. Stated over the UTF-8 bytes of both and,
/// for a sentence of ASCII characters, over the characters.
pub fn get_first_word(sentence: &String) -> (word: &str)
    ensures
        word.spec_bytes() == encode_utf8(sentence@).take(first_of(encode_utf8(sentence@), 0x20)),
        is_ascii_chars(sentence@) ==> word@ == sentence@.take(
            first_of(encode_utf8(sentence@), 0x20),
        ),
{
    prefix_before(sentence.as_str(), 0x20)
}

/// The first word of the sentence `Hell no, world!`.
pub fn run() -> (word: String)
    ensures
        word@ == "Hell"@,
{
    let s: String = "Hell no, world!".to_owned();
    let sl: &str = get_first_word(&s);
    proof {
        reveal_strlit("Hell no, world!");
        reveal_strlit("Hell");
        is_ascii_chars_encode_utf8(s@);
        lemma_first_of(encode_utf8(s@), 0x20, 4);
        assert(s@.take(4) =~= "Hell"@);
    }
    sl.to_owned()
}

} // verus!

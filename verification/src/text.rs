use vstd::prelude::*;
use vstd::string::*;
use vstd::utf8::*;

verus! {

/// The texts that a list of strings holds, as mathematical values.
pub open spec fn texts(lines: Seq<String>) -> Seq<Seq<char>> {
    Seq::new(lines.len(), |i: int| lines[i]@)
}

/// Where the first byte `stop` of `bytes` stands, or the length of `bytes`
/// where it holds none.
pub open spec fn first_of(bytes: Seq<u8>, stop: u8) -> int
    decreases bytes.len(),
{
    if bytes.len() == 0 || bytes[0] == stop {
        0
    } else {
        1 + first_of(bytes.drop_first(), stop)
    }
}

/// `first_of` is the one index with no `stop` before it and a `stop`, or the end, at it.
pub proof fn lemma_first_of(bytes: Seq<u8>, stop: u8, at: int)
    ensures
        0 <= first_of(bytes, stop) <= bytes.len(),
        first_of(bytes, stop) < bytes.len() ==> bytes[first_of(bytes, stop)] == stop,
        forall|i: int| 0 <= i < first_of(bytes, stop) ==> bytes[i] != stop,
        ({
            &&& 0 <= at <= bytes.len()
            &&& (at < bytes.len() ==> bytes[at] == stop)
            &&& forall|i: int| 0 <= i < at ==> bytes[i] != stop
        }) ==> at == first_of(bytes, stop),
    decreases bytes.len(),
{
    if bytes.len() == 0 || bytes[0] == stop {
    } else {
        let rest = bytes.drop_first();
        lemma_first_of(rest, stop, at - 1);
        assert forall|i: int| 0 <= i < first_of(bytes, stop) implies bytes[i] != stop by {
            if i > 0 {
                assert(bytes[i] == rest[i - 1]);
            }
        }
        if 0 < at <= bytes.len() && (at < bytes.len() ==> bytes[at] == stop) && (forall|i: int|
            0 <= i < at ==> bytes[i] != stop) {
            assert forall|i: int| 0 <= i < at - 1 implies rest[i] != stop by {
                assert(rest[i] == bytes[i + 1]);
            }
        }
    }
}

/// In a text of ASCII characters, bytes and characters stand at the same
/// indices: a text whose bytes are the first `k` bytes is the first `k` characters.
pub proof fn lemma_ascii_prefix(chars: Seq<char>, k: int, word: Seq<char>)
    requires
        is_ascii_chars(chars),
        0 <= k <= chars.len(),
        encode_utf8(word) == encode_utf8(chars).take(k),
    ensures
        encode_utf8(chars).len() == chars.len(),
        word == chars.take(k),
{
    let prefix = chars.take(k);
    is_ascii_chars_encode_utf8(chars);
    is_ascii_chars_encode_utf8(prefix);
    assert forall|i: int| 0 <= i < k implies encode_utf8(prefix)[i] == encode_utf8(chars)[i] by {
        assert(prefix[i] == chars[i]);
    }
    assert(encode_utf8(prefix) =~= encode_utf8(chars).take(k));
    encode_utf8_decode_utf8(prefix);
    encode_utf8_decode_utf8(word);
}

/// The part of `text` before its first byte `stop`, an ASCII byte; the whole
/// text where it holds none. Stated over the UTF-8 bytes of both and, for a
/// text of ASCII characters, over the characters.
pub fn prefix_before<'a>(text: &'a str, stop: u8) -> (part: &'a str)
    requires
        stop < 0x80,
    ensures
        part.spec_bytes() == encode_utf8(text@).take(first_of(encode_utf8(text@), stop)),
        is_ascii_chars(text@) ==> part@ == text@.take(first_of(encode_utf8(text@), stop)),
{
    let bytes = text.as_bytes();
    proof {
        encode_utf8_valid_utf8(text@);
    }
    let mut i: usize = 0;
    while i < bytes.len()
        invariant
            bytes@ == encode_utf8(text@),
            valid_utf8(bytes@),
            stop < 0x80,
            0 <= i <= bytes@.len(),
            forall|j: int| 0 <= j < i ==> bytes@[j] != stop,
        decreases bytes@.len() - i,
    {
        if bytes[i] == stop {
            proof {
                is_char_boundary_iff_not_is_continuation_byte(bytes@, i as int);
                lemma_first_of(bytes@, stop, i as int);
            }
            let (part, _) = text.split_at(i);
            proof {
                assert(part.spec_bytes() =~= bytes@.take(i as int));
                if is_ascii_chars(text@) {
                    is_ascii_chars_encode_utf8(text@);
                    lemma_ascii_prefix(text@, i as int, part@);
                }
            }
            return part;
        }
        i += 1;
    }
    proof {
        lemma_first_of(bytes@, stop, i as int);
        assert(bytes@.take(i as int) =~= bytes@);
        if is_ascii_chars(text@) {
            is_ascii_chars_encode_utf8(text@);
            assert(text@.take(i as int) =~= text@);
        }
    }
    text
}

/// The character of a decimal digit.
pub open spec fn digit(d: nat) -> char {
    if d == 0 {
        '0'
    } else if d == 1 {
        '1'
    } else if d == 2 {
        '2'
    } else if d == 3 {
        '3'
    } else if d == 4 {
        '4'
    } else if d == 5 {
        '5'
    } else if d == 6 {
        '6'
    } else if d == 7 {
        '7'
    } else if d == 8 {
        '8'
    } else {
        '9'
    }
}

/// A number in decimal digits, without leading zeros.
pub open spec fn decimal(n: nat) -> Seq<char>
    decreases n,
{
    if n < 10 {
        seq![digit(n)]
    } else {
        decimal(n / 10).push(digit(n % 10))
    }
}

fn digit_text(d: u64) -> (text: &'static str)
    requires
        d < 10,
    ensures
        text@ == seq![digit(d as nat)],
{
    proof {
        reveal_strlit("0");
        reveal_strlit("1");
        reveal_strlit("2");
        reveal_strlit("3");
        reveal_strlit("4");
        reveal_strlit("5");
        reveal_strlit("6");
        reveal_strlit("7");
        reveal_strlit("8");
        reveal_strlit("9");
    }
    let text = if d == 0 {
        "0"
    } else if d == 1 {
        "1"
    } else if d == 2 {
        "2"
    } else if d == 3 {
        "3"
    } else if d == 4 {
        "4"
    } else if d == 5 {
        "5"
    } else if d == 6 {
        "6"
    } else if d == 7 {
        "7"
    } else if d == 8 {
        "8"
    } else {
        "9"
    };
    assert(text@ =~= seq![digit(d as nat)]);
    text
}

/// Writes a number in decimal digits.
pub fn decimal_text(n: u64) -> (text: String)
    ensures
        text@ == decimal(n as nat),
    decreases n,
{
    if n < 10 {
        digit_text(n).to_owned()
    } else {
        let mut text = decimal_text(n / 10);
        text.append(digit_text(n % 10));
        assert(text@ =~= decimal((n / 10) as nat).push(digit((n % 10) as nat)));
        text
    }
}

/// Whether a character is white space: the characters with the Unicode
/// property `White_Space`.
pub open spec fn is_white_space(c: char) -> bool {
    ||| '\u{9}' <= c <= '\u{d}'
    ||| c == ' '
    ||| c == '\u{85}'
    ||| c == '\u{a0}'
    ||| c == '\u{1680}'
    ||| '\u{2000}' <= c <= '\u{200a}'
    ||| c == '\u{2028}'
    ||| c == '\u{2029}'
    ||| c == '\u{202f}'
    ||| c == '\u{205f}'
    ||| c == '\u{3000}'
}

/// A text without the white space at its start.
pub open spec fn trimmed_start(s: Seq<char>) -> Seq<char>
    decreases s.len(),
{
    if s.len() > 0 && is_white_space(s[0]) {
        trimmed_start(s.drop_first())
    } else {
        s
    }
}

/// A text without the white space at its end.
pub open spec fn trimmed_end(s: Seq<char>) -> Seq<char>
    decreases s.len(),
{
    if s.len() > 0 && is_white_space(s.last()) {
        trimmed_end(s.drop_last())
    } else {
        s
    }
}

/// A text without the white space at its start and at its end.
pub open spec fn trimmed(s: Seq<char>) -> Seq<char> {
    trimmed_end(trimmed_start(s))
}

/// Tells whether a character is white space.
pub fn is_space(c: char) -> (white: bool)
    ensures
        white == is_white_space(c),
{
    ('\u{9}' <= c && c <= '\u{d}') || c == ' ' || c == '\u{85}' || c == '\u{a0}' || c
        == '\u{1680}' || ('\u{2000}' <= c && c <= '\u{200a}') || c == '\u{2028}' || c
        == '\u{2029}' || c == '\u{202f}' || c == '\u{205f}' || c == '\u{3000}'
}

/// A text whose first `k` characters are white space, and the next is not,
/// is without them once its start is trimmed.
pub proof fn lemma_trimmed_start(s: Seq<char>, k: int)
    requires
        0 <= k <= s.len(),
        forall|i: int| 0 <= i < k ==> is_white_space(s[i]),
        k < s.len() ==> !is_white_space(s[k]),
    ensures
        trimmed_start(s) == s.skip(k),
    decreases k,
{
    if k == 0 {
        assert(s.skip(0) =~= s);
    } else {
        let rest = s.drop_first();
        assert forall|i: int| 0 <= i < k - 1 implies is_white_space(rest[i]) by {
            assert(rest[i] == s[i + 1]);
        }
        lemma_trimmed_start(rest, k - 1);
        assert(rest.skip(k - 1) =~= s.skip(k));
    }
}

/// A text whose characters from the `k`-th on are white space, and the one
/// before is not, is its first `k` characters once its end is trimmed.
pub proof fn lemma_trimmed_end(s: Seq<char>, k: int)
    requires
        0 <= k <= s.len(),
        forall|i: int| k <= i < s.len() ==> is_white_space(s[i]),
        k > 0 ==> !is_white_space(s[k - 1]),
    ensures
        trimmed_end(s) == s.take(k),
    decreases s.len() - k,
{
    if k == s.len() {
        assert(s.take(k) =~= s);
    } else {
        let rest = s.drop_last();
        lemma_trimmed_end(rest, k);
        assert(rest.take(k) =~= s.take(k));
    }
}

/// A text without the white space around it. Each character looked at is
/// reached from the start of the text, so the time taken grows with the
/// length of the text times the white space around it.
pub fn trim(text: &str) -> (inner: &str)
    ensures
        inner@ == trimmed(text@),
{
    let len = text.unicode_len();
    let mut start: usize = 0;
    while start < len
        invariant
            len == text@.len(),
            0 <= start <= len,
            forall|i: int| 0 <= i < start ==> is_white_space(text@[i]),
        ensures
            0 <= start <= len,
            forall|i: int| 0 <= i < start ==> is_white_space(text@[i]),
            start < len ==> !is_white_space(text@[start as int]),
        decreases len - start,
    {
        if !is_space(text.get_char(start)) {
            break ;
        }
        start += 1;
    }
    let mut end: usize = len;
    while end > start
        invariant
            len == text@.len(),
            0 <= start <= end <= len,
            forall|i: int| end <= i < len ==> is_white_space(text@[i]),
        ensures
            0 <= start <= end <= len,
            forall|i: int| end <= i < len ==> is_white_space(text@[i]),
            end > start ==> !is_white_space(text@[end - 1]),
        decreases end,
    {
        if !is_space(text.get_char(end - 1)) {
            break ;
        }
        end -= 1;
    }
    proof {
        let kept = text@.skip(start as int);
        lemma_trimmed_start(text@, start as int);
        assert forall|i: int| end - start <= i < kept.len() implies is_white_space(kept[i]) by {
            assert(kept[i] == text@[i + start]);
        }
        if end > start {
            assert(kept[end - start - 1] == text@[end - 1]);
        }
        lemma_trimmed_end(kept, end - start);
        assert(kept.take(end - start) =~= text@.subrange(start as int, end as int));
    }
    text.substring_char(start, end)
}

/// Whether a byte is an ASCII decimal digit.
pub open spec fn is_digit(byte: u8) -> bool {
    0x30 <= byte <= 0x39
}

/// Whether every byte is an ASCII decimal digit.
pub open spec fn all_digits(bytes: Seq<u8>) -> bool {
    forall|i: int| 0 <= i < bytes.len() ==> is_digit(#[trigger] bytes[i])
}

/// The number that decimal digits write.
pub open spec fn digits_value(bytes: Seq<u8>) -> nat
    decreases bytes.len(),
{
    if bytes.len() == 0 {
        0
    } else {
        (digits_value(bytes.drop_last()) * 10 + (bytes.last() - 0x30)) as nat
    }
}

/// The digits of a number's text: the text without a plus sign at its start.
pub open spec fn unsigned_digits(bytes: Seq<u8>) -> Seq<u8> {
    if bytes.len() > 0 && bytes[0] == 0x2b {
        bytes.drop_first()
    } else {
        bytes
    }
}

/// The number below 256 that a text writes in decimal: one digit or more,
/// after a plus sign or none, and nothing else.
pub open spec fn parsed_u8(bytes: Seq<u8>) -> Option<u8> {
    let digits = unsigned_digits(bytes);
    if digits.len() > 0 && all_digits(digits) && digits_value(digits) <= u8::MAX {
        Some(digits_value(digits) as u8)
    } else {
        None
    }
}

proof fn lemma_digits_value_grows(bytes: Seq<u8>, k: int)
    requires
        all_digits(bytes),
        0 <= k <= bytes.len(),
    ensures
        digits_value(bytes.take(k)) <= digits_value(bytes),
    decreases bytes.len() - k,
{
    if k == bytes.len() {
        assert(bytes.take(k) =~= bytes);
    } else {
        lemma_digits_value_grows(bytes, k + 1);
        let longer = bytes.take(k + 1);
        assert(longer.drop_last() =~= bytes.take(k));
        assert(is_digit(bytes[k]));
        assert(longer.last() == bytes[k]);
    }
}

/// Reads a number below 256 in decimal.
pub fn parse_u8(text: &str) -> (number: Option<u8>)
    ensures
        number == parsed_u8(encode_utf8(text@)),
{
    let bytes = text.as_bytes();
    let start: usize = if bytes.len() > 0 && bytes[0] == 0x2b {
        1
    } else {
        0
    };
    let ghost digits = unsigned_digits(bytes@);
    assert(digits =~= bytes@.skip(start as int));
    if start == bytes.len() {
        return None;
    }
    let mut value: u8 = 0;
    let mut i: usize = start;
    while i < bytes.len()
        invariant
            bytes@ == encode_utf8(text@),
            digits == bytes@.skip(start as int),
            digits == unsigned_digits(bytes@),
            start <= i <= bytes@.len(),
            all_digits(digits.take(i - start)),
            value == digits_value(digits.take(i - start)),
        decreases bytes@.len() - i,
    {
        let byte = bytes[i];
        let ghost seen = digits.take(i - start);
        let ghost next = digits.take(i - start + 1);
        proof {
            assert(digits[i - start] == byte);
            assert(next.drop_last() =~= seen);
            assert(next.last() == byte);
        }
        if byte < 0x30 || byte > 0x39 {
            assert(!is_digit(digits[i - start]));
            return None;
        }
        let digit: u8 = byte - 0x30;
        if value > 25 || (value == 25 && digit > 5) {
            proof {
                if all_digits(digits) {
                    lemma_digits_value_grows(digits, i - start + 1);
                }
            }
            return None;
        }
        value = value * 10 + digit;
        proof {
            assert forall|j: int| 0 <= j < next.len() implies is_digit(#[trigger] next[j]) by {
                if j < seen.len() {
                    assert(next[j] == seen[j]);
                }
            }
        }
        i += 1;
    }
    assert(digits.take(i - start) =~= digits);
    Some(value)
}

} // verus!

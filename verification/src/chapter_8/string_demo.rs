use crate::text::{decimal, decimal_text};
use vstd::prelude::*;
use vstd::string::*;

verus! {

/// A user name put together from the text `dpad`, an underscore and the
/// number 29, and the first four characters of it.
pub fn run() -> (made: (String, String))
    ensures
        made.0@ == "dpad"@ + seq!['_'] + decimal(29),
        made.1@ == "dpad"@,
{
    let mut name: String = "".to_owned();
    name.append("dpad");
    name.append("_");
    let num: u8 = 29;
    name.append(decimal_text(num as u64).as_str());
    proof {
        reveal_strlit("");
        reveal_strlit("dpad");
        reveal_strlit("_");
        reveal_with_fuel(decimal, 3);
        assert(name@ =~= seq!['d', 'p', 'a', 'd', '_', '2', '9']);
        assert(name@ =~= "dpad"@ + seq!['_'] + decimal(29));
        assert(name@.subrange(0, 4) =~= "dpad"@);
    }
    let original: &str = name.as_str().substring_ascii(0, 4);
    let first = original.to_owned();
    (name, first)
}

} // verus!

use crate::text::{decimal, decimal_text};
use vstd::prelude::*;
use vstd::string::*;

verus! {

/// The fruit that is liked and the fruit that is not: the third and the
/// first of Apple, Banana, Orange.
pub fn arrays() -> (fruit: (&'static str, &'static str))
    ensures
        fruit.0@ == "Orange"@,
        fruit.1@ == "Apple"@,
{
    let fruit: [&'static str; 3] = ["Apple", "Banana", "Orange"];
    (fruit[2], fruit[0])
}

/// What is said of two bipeds, as a mathematical value: one abducted the
/// other where only one of them is an alien, else they are good pals.
pub open spec fn encounter_words(first: (Seq<char>, bool), second: (Seq<char>, bool)) -> Seq<
    char,
> {
    if second.1 != first.1 {
        "  "@ + first.0 + " was abducted by "@ + second.0
    } else {
        "  "@ + first.0 + " and "@ + second.0 + " are good pals."@
    }
}

/// What is said of two bipeds, each given by name, age and whether it is an alien.
pub fn encounter(first: &(String, i32, bool), second: &(String, i32, bool)) -> (line: String)
    ensures
        line@ == encounter_words((first.0@, first.2), (second.0@, second.2)),
{
    let mut line = "  ".to_owned();
    line.append(first.0.as_str());
    if second.2 != first.2 {
        line.append(" was abducted by ");
        line.append(second.0.as_str());
    } else {
        line.append(" and ");
        line.append(second.0.as_str());
        line.append(" are good pals.");
    }
    line
}

/// What is said of the human Alice, 30, and the alien Zorb, 184.
pub fn tuples() -> (line: String)
    ensures
        line@ == encounter_words(("Alice"@, false), ("Zorb"@, true)),
{
    let biped_1: (String, i32, bool) = ("Alice".to_owned(), 30, false);
    let biped_2: (String, i32, bool) = ("Zorb".to_owned(), 184, true);
    encounter(&biped_1, &biped_2)
}

/// Four texts made with strings and string slices: `Hammer DOWN!`, grown from
/// `Hammer`; `Reinhardt`, put in the place of `Mercy`; the ticker symbol
/// `ESM` with the year 24; and the first two characters of that symbol.
pub fn strings() -> (made: (String, String, String, String))
    ensures
        made.0@ == "Hammer"@ + " DOWN!"@,
        made.1@ == "Reinhardt"@,
        made.2@ == "ESM"@ + decimal(24),
        made.3@ == ("ESM"@ + decimal(24)).subrange(0, 2),
{
    let mut reinhardt: String = "Hammer".to_owned();
    reinhardt.append(" DOWN!");

    let mut most_played: String = "Mercy".to_owned();
    most_played = "Reinhardt".to_owned();

    let mut ticker_symbol: String = "ESM".to_owned();
    let year: u8 = 24;
    ticker_symbol.append(decimal_text(year as u64).as_str());
    let ticker_slice: &str = ticker_symbol.as_str();
    proof {
        reveal_strlit("ESM");
        reveal_with_fuel(decimal, 3);
        assert(ticker_slice@ =~= seq!['E', 'S', 'M', '2', '4']);
    }
    let asset_id: &str = ticker_slice.substring_ascii(0, 2);
    let asset = asset_id.to_owned();
    (reinhardt, most_played, ticker_symbol, asset)
}

/// What the parts of the module make: the fruit, the encounter, the texts.
pub fn run() -> (made: ((&'static str, &'static str), String, (String, String, String, String)))
    ensures
        made.0.0@ == "Orange"@,
        made.0.1@ == "Apple"@,
        made.1@ == encounter_words(("Alice"@, false), ("Zorb"@, true)),
        made.2.0@ == "Hammer"@ + " DOWN!"@,
        made.2.1@ == "Reinhardt"@,
        made.2.2@ == "ESM"@ + decimal(24),
        made.2.3@ == ("ESM"@ + decimal(24)).subrange(0, 2),
{
    let fruit = arrays();
    let line = tuples();
    let texts = strings();
    (fruit, line, texts)
}

} // verus!

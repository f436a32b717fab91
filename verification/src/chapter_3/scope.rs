use vstd::prelude::*;
use vstd::string::*;

verus! {

/// A card as a mathematical value: to whom, a border, the wish, from whom, and the border again.
pub open spec fn card_text(
    to: Seq<char>,
    border: Seq<char>,
    wish: Seq<char>,
    from: Seq<char>,
) -> Seq<char> {
    "\n  TO:   "@ + to + border + "\n    "@ + wish + "\n    -- "@ + from + "\n "@ + border
}

/// Writes a card.
pub fn card(to: &str, border: &str, wish: &str, from: &str) -> (text: String)
    ensures
        text@ == card_text(to@, border@, wish@, from@),
{
    let mut text = "\n  TO:   ".to_owned();
    text.append(to);
    text.append(border);
    text.append("\n    ");
    text.append(wish);
    text.append("\n    -- ");
    text.append(from);
    text.append("\n ");
    text.append(border);
    text
}

/// Two cards: a birthday wish from the inner scope to the outer, written
/// where both are in reach, and the thanks from the outer scope, written
/// after the inner one has ended.
pub fn my_func() -> (cards: (String, String))
    ensures
        cards.0@ == card_text(
            "OUTER SCOPE"@,
            "\n  --------------------"@,
            "Happy birthday"@,
            "INNER SCOPE"@,
        ),
        cards.1@ == card_text(
            "INNER SCOPE"@,
            "\n  --------------------"@,
            "Thank you"@,
            "OUTER SCOPE"@,
        ),
{
    let outer_owner = "OUTER SCOPE".to_owned();
    let outer_scope: &str = outer_owner.as_str();
    let recipient: String;
    let border_owner = "\n  --------------------".to_owned();
    let border: &str = border_owner.as_str();
    let wish;
    {
        recipient = "INNER SCOPE".to_owned();
        let inner_scope: &str = recipient.as_str();
        wish = card(outer_scope, border, "Happy birthday", inner_scope);
    }
    let thanks = card(recipient.as_str(), border, "Thank you", outer_scope);
    (wish, thanks)
}

/// The two cards of `my_func`.
pub fn run() -> (cards: (String, String))
    ensures
        cards.0@ == card_text(
            "OUTER SCOPE"@,
            "\n  --------------------"@,
            "Happy birthday"@,
            "INNER SCOPE"@,
        ),
        cards.1@ == card_text(
            "INNER SCOPE"@,
            "\n  --------------------"@,
            "Thank you"@,
            "OUTER SCOPE"@,
        ),
{
    my_func()
}

} // verus!

use crate::chance::random_between;
use crate::text::{decimal, decimal_text};
use vstd::prelude::*;
use vstd::string::*;

verus! {

/// What a roll of the five-sided die does to the player.
#[derive(Clone, Copy, Debug, PartialEq, Eq, Structural)]
pub enum Roll {
    /// A three: the player explodes.
    Explode,
    /// A five: the player wins.
    Reward,
    /// Any other number: the player rolls again.
    Retry(u8),
}

impl Roll {
    /// What the number rolled does to the player.
    pub open spec fn of(roll_value: u8) -> Roll {
        if roll_value == 3 {
            Roll::Explode
        } else if roll_value == 5 {
            Roll::Reward
        } else {
            Roll::Retry(roll_value)
        }
    }

    /// The words for the player, as a mathematical value.
    pub open spec fn words(self) -> Seq<char> {
        match self {
            Roll::Explode => "You're dead!"@,
            Roll::Reward => "You win!"@,
            Roll::Retry(val) => "You rolled "@ + decimal(val as nat) + ". Try again!"@,
        }
    }

    /// The words for the player.
    pub fn message(&self) -> (line: String)
        ensures
            line@ == self.words(),
    {
        match self {
            Roll::Explode => "You're dead!".to_owned(),
            Roll::Reward => "You win!".to_owned(),
            Roll::Retry(val) => {
                let mut line = "You rolled ".to_owned();
                line.append(decimal_text(*val as u64).as_str());
                line.append(". Try again!");
                line
            },
        }
    }
}

/// Decides what the number rolled does to the player.
pub fn judge(roll_value: u8) -> (roll: Roll)
    ensures
        roll == Roll::of(roll_value),
{
    match roll_value {
        3 => Roll::Explode,
        5 => Roll::Reward,
        other => Roll::Retry(other),
    }
}

/// Rolls the die, whose sides go from 1 to 5, and decides what the number
/// does to the player.
pub fn dice_rolling() -> (roll: Roll)
    ensures
        exists|roll_value: u8| 1 <= roll_value <= 5 && roll == Roll::of(roll_value),
{
    let roll_value: u8 = random_between(1, 5);
    judge(roll_value)
}

} // verus!

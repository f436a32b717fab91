use crate::chance::random_between;
use crate::text::{decimal, decimal_text, parse_u8, parsed_u8, texts, trim, trimmed};
use vstd::prelude::*;
use vstd::string::*;
use vstd::utf8::*;

verus! {

/// The number of guesses that a player has.
pub const MAX_GUESS_COUNT: u8 = 8;

/// A game in progress: the number to find, and the guesses made so far.
#[derive(Clone, Copy, Debug, PartialEq, Eq, Structural)]
pub struct Game {
    pub secret: u8,
    pub guess_count: u8,
}

/// What the game says of a guess that is not the number.
#[derive(Clone, Copy, Debug, PartialEq, Eq, Structural)]
pub enum Reply {
    /// The guess is below the number.
    TooSmall,
    /// The guess is above the number.
    TooBig,
    /// The line is no number from 1 to 255.
    Invalid,
}

/// How one guess ends.
#[derive(Clone, Copy, Debug, PartialEq, Eq, Structural)]
pub enum Turn {
    /// The guess was wrong and the game goes on from `game`.
    Goes { reply: Reply, game: Game },
    /// The guess was the number, at this try.
    Won { tries: u8 },
    /// The guess was wrong and it was the last: the number is told.
    Lost { reply: Reply, answer: u8 },
}

/// The number that a line of input stands for: the number that the line
/// writes in decimal between white space, 0 where it writes none below 256.
pub open spec fn guess_value(line: Seq<char>) -> u8 {
    match parsed_u8(encode_utf8(trimmed(line))) {
        Some(number) => number,
        None => 0,
    }
}

/// Reads the guess that a line of input stands for.
pub fn guess_of(line: &str) -> (guess: u8)
    ensures
        guess == guess_value(line@),
{
    match parse_u8(trim(line)) {
        Some(number) => number,
        None => 0,
    }
}

impl Reply {
    /// What the game says of a guess that is not the number `secret`.
    pub open spec fn to(secret: u8, guess: u8) -> Reply {
        if guess == 0 {
            Reply::Invalid
        } else if guess < secret {
            Reply::TooSmall
        } else {
            Reply::TooBig
        }
    }

    /// The words of the reply, as a mathematical value.
    pub open spec fn words(self) -> Seq<char> {
        match self {
            Reply::TooSmall => "\nToo small..."@,
            Reply::TooBig => "\nToo big..."@,
            Reply::Invalid => "\nInvalid input"@,
        }
    }

    /// The words of the reply.
    pub fn message(&self) -> (line: String)
        ensures
            line@ == self.words(),
    {
        match self {
            Reply::TooSmall => "\nToo small...".to_owned(),
            Reply::TooBig => "\nToo big...".to_owned(),
            Reply::Invalid => "\nInvalid input".to_owned(),
        }
    }
}

impl Turn {
    /// How the guess `guess` ends in `game`: a guess above 0 that is the
    /// number wins; any other counts as a guess made, and the last of them loses.
    pub open spec fn of(game: Game, guess: u8) -> Turn {
        if guess > 0 && guess == game.secret {
            Turn::Won { tries: (game.guess_count + 1) as u8 }
        } else if game.guess_count + 1 == MAX_GUESS_COUNT {
            Turn::Lost { reply: Reply::to(game.secret, guess), answer: game.secret }
        } else {
            Turn::Goes {
                reply: Reply::to(game.secret, guess),
                game: Game { guess_count: (game.guess_count + 1) as u8, ..game },
            }
        }
    }

    /// The lines that the turn shows to the player, as mathematical values.
    pub open spec fn shown(self) -> Seq<Seq<char>> {
        match self {
            Turn::Goes { reply, .. } => seq![reply.words()],
            Turn::Won { tries } => seq![
                "\nYou got it in "@ + decimal(tries as nat) + " tries"@,
            ],
            Turn::Lost { reply, answer } => seq![
                reply.words(),
                "No more guesses. You lose."@,
                "The answer was: "@ + decimal(answer as nat),
            ],
        }
    }

    /// The lines that the turn shows to the player.
    pub fn lines(&self) -> (lines: Vec<String>)
        ensures
            texts(lines@) == self.shown(),
    {
        let mut lines: Vec<String> = Vec::new();
        match self {
            Turn::Goes { reply, .. } => {
                lines.push(reply.message());
            },
            Turn::Won { tries } => {
                let mut line = "\nYou got it in ".to_owned();
                line.append(decimal_text(*tries as u64).as_str());
                line.append(" tries");
                lines.push(line);
            },
            Turn::Lost { reply, answer } => {
                lines.push(reply.message());
                lines.push("No more guesses. You lose.".to_owned());
                let mut line = "The answer was: ".to_owned();
                line.append(decimal_text(*answer as u64).as_str());
                lines.push(line);
            },
        }
        assert(texts(lines@) =~= self.shown());
        lines
    }
}

impl Game {
    /// A game about the number `secret`, with no guess made.
    pub fn new(secret: u8) -> (game: Game)
        ensures
            game == (Game { secret, guess_count: 0 }),
    {
        Game { secret, guess_count: 0 }
    }

    /// A game about a number drawn at random from 1 to 100, with no guess made.
    pub fn start() -> (game: Game)
        ensures
            1 <= game.secret <= 100,
            game.guess_count == 0,
    {
        Game::new(random_between(1, 100))
    }

    /// Takes one line of input as the next guess.
    pub fn guess(self, line: &str) -> (turn: Turn)
        requires
            self.guess_count < u8::MAX,
        ensures
            turn == Turn::of(self, guess_value(line@)),
    {
        let guess = guess_of(line);
        if guess > 0 && guess == self.secret {
            return Turn::Won { tries: self.guess_count + 1 };
        }
        let reply = if guess == 0 {
            Reply::Invalid
        } else if guess < self.secret {
            Reply::TooSmall
        } else {
            Reply::TooBig
        };
        let guess_count = self.guess_count + 1;
        if guess_count == MAX_GUESS_COUNT {
            Turn::Lost { reply, answer: self.secret }
        } else {
            Turn::Goes { reply, game: Game { secret: self.secret, guess_count } }
        }
    }
}

/// The turns of a game that is given the lines of input one after the
/// other, until it is won or lost or the lines run out.
pub open spec fn turns(game: Game, lines: Seq<Seq<char>>) -> Seq<Turn>
    decreases lines.len(),
{
    if lines.len() == 0 {
        seq![]
    } else {
        let turn = Turn::of(game, guess_value(lines[0]));
        match turn {
            Turn::Goes { game: next, .. } => seq![turn] + turns(next, lines.drop_first()),
            _ => seq![turn],
        }
    }
}

/// Plays `game` on the given lines of input: one turn for each line, until
/// the game is won or lost or the lines run out. A game that has left its
/// eighth guess behind is never lost: it may go on for as many lines as its
/// count of guesses has room for.
pub fn play(game: Game, lines: &Vec<String>) -> (played: Vec<Turn>)
    requires
        game.guess_count < MAX_GUESS_COUNT || game.guess_count + lines.len() <= u8::MAX,
    ensures
        played@ == turns(game, texts(lines@)),
{
    let mut played: Vec<Turn> = Vec::new();
    let mut current = game;
    let mut i: usize = 0;
    assert(texts(lines@).skip(0) =~= texts(lines@));
    assert(played@ + turns(game, texts(lines@)) =~= turns(game, texts(lines@)));
    while i < lines.len()
        invariant
            0 <= i <= lines.len(),
            current.guess_count < MAX_GUESS_COUNT || current.guess_count + (lines.len() - i)
                <= u8::MAX,
            played@ + turns(current, texts(lines@).skip(i as int)) == turns(game, texts(lines@)),
        decreases lines.len() - i,
    {
        let ghost rest = texts(lines@).skip(i as int);
        let ghost before = played@;
        assert(rest[0] == lines@[i as int]@);
        assert(rest.drop_first() =~= texts(lines@).skip(i + 1));
        let turn = current.guess(lines[i].as_str());
        played.push(turn);
        match turn {
            Turn::Goes { game: next, .. } => {
                assert(before.push(turn) + turns(next, rest.drop_first()) =~= before + (seq![turn]
                    + turns(next, rest.drop_first())));
                current = next;
            },
            _ => {
                assert(before.push(turn) =~= before + seq![turn]);
                return played;
            },
        }
        i += 1;
    }
    assert(texts(lines@).skip(i as int) =~= Seq::<Seq<char>>::empty());
    assert(played@ + Seq::<Turn>::empty() =~= played@);
    played
}

/// Plays a game about a number drawn at random from 1 to 100 on the given
/// lines of input.
pub fn run(lines: &Vec<String>) -> (played: Vec<Turn>)
    ensures
        exists|secret: u8|
            1 <= secret <= 100 && played@ == turns(
                Game { secret, guess_count: 0 },
                texts(lines@),
            ),
{
    let game = Game::start();
    play(game, lines)
}

} // verus!

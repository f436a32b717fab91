use the_book::chapter_2::guessing_game::{guess_of, play, run, Game, Reply, Turn, MAX_GUESS_COUNT};

fn lines(texts: &[&str]) -> Vec<String> {
    texts.iter().map(|t| t.to_string()).collect()
}

#[test]
fn guess_of_reads_a_trimmed_number() {
    assert_eq!(guess_of("50\n"), 50);
    assert_eq!(guess_of("  42  \r\n"), 42);
    assert_eq!(guess_of("\t+7 "), 7);
    assert_eq!(guess_of("007"), 7);
    assert_eq!(guess_of("255"), 255);
    assert_eq!(guess_of("\u{a0}12\u{3000}"), 12);
}

#[test]
fn guess_of_is_zero_for_what_is_no_number() {
    assert_eq!(guess_of(""), 0);
    assert_eq!(guess_of("\n"), 0);
    assert_eq!(guess_of("abc"), 0);
    assert_eq!(guess_of("256"), 0);
    assert_eq!(guess_of("1000"), 0);
    assert_eq!(guess_of("-3"), 0);
    assert_eq!(guess_of("+"), 0);
    assert_eq!(guess_of("1 2"), 0);
    assert_eq!(guess_of("12a"), 0);
    assert_eq!(guess_of("0"), 0);
    assert_eq!(guess_of("++1"), 0);
    assert_eq!(guess_of("\u{663}"), 0);
}

#[test]
fn a_wrong_guess_goes_on() {
    let game = Game::new(40);
    assert_eq!(
        game.guess("10\n"),
        Turn::Goes { reply: Reply::TooSmall, game: Game { secret: 40, guess_count: 1 } }
    );
    assert_eq!(
        game.guess("90\n"),
        Turn::Goes { reply: Reply::TooBig, game: Game { secret: 40, guess_count: 1 } }
    );
    assert_eq!(
        game.guess("forty\n"),
        Turn::Goes { reply: Reply::Invalid, game: Game { secret: 40, guess_count: 1 } }
    );
}

#[test]
fn the_right_guess_wins_with_the_count_of_tries() {
    assert_eq!(Game::new(40).guess("40\n"), Turn::Won { tries: 1 });
    let late = Game { secret: 40, guess_count: 7 };
    assert_eq!(late.guess("40\n"), Turn::Won { tries: 8 });
}

#[test]
fn the_eighth_wrong_guess_loses() {
    let late = Game { secret: 40, guess_count: 7 };
    assert_eq!(late.guess("41\n"), Turn::Lost { reply: Reply::TooBig, answer: 40 });
    assert_eq!(late.guess("?\n"), Turn::Lost { reply: Reply::Invalid, answer: 40 });
    assert_eq!(MAX_GUESS_COUNT, 8);
}

#[test]
fn play_stops_at_the_win() {
    let played = play(Game::new(40), &lines(&["50", "25", "x", "40", "41"]));
    assert_eq!(
        played,
        vec![
            Turn::Goes { reply: Reply::TooBig, game: Game { secret: 40, guess_count: 1 } },
            Turn::Goes { reply: Reply::TooSmall, game: Game { secret: 40, guess_count: 2 } },
            Turn::Goes { reply: Reply::Invalid, game: Game { secret: 40, guess_count: 3 } },
            Turn::Won { tries: 4 },
        ]
    );
}

#[test]
fn play_stops_at_the_eighth_guess() {
    let played = play(Game::new(40), &lines(&["1", "2", "3", "4", "5", "6", "7", "8", "40"]));
    assert_eq!(played.len(), 8);
    assert_eq!(played[7], Turn::Lost { reply: Reply::TooSmall, answer: 40 });
}

#[test]
fn play_ends_when_the_lines_run_out() {
    assert_eq!(play(Game::new(40), &Vec::new()), Vec::new());
    let played = play(Game::new(40), &lines(&["1"]));
    assert_eq!(
        played,
        vec![Turn::Goes { reply: Reply::TooSmall, game: Game { secret: 40, guess_count: 1 } }]
    );
}

#[test]
fn turns_show_the_lines_of_the_game() {
    let goes = Turn::Goes { reply: Reply::TooSmall, game: Game::new(1) };
    assert_eq!(goes.lines(), vec!["\nToo small...".to_string()]);
    assert_eq!(Reply::TooBig.message(), "\nToo big...");
    assert_eq!(Reply::Invalid.message(), "\nInvalid input");
    assert_eq!(Turn::Won { tries: 3 }.lines(), vec!["\nYou got it in 3 tries".to_string()]);
    assert_eq!(
        Turn::Lost { reply: Reply::TooBig, answer: 100 }.lines(),
        vec![
            "\nToo big...".to_string(),
            "No more guesses. You lose.".to_string(),
            "The answer was: 100".to_string(),
        ]
    );
}

#[test]
fn a_started_game_hides_a_number_from_1_to_100() {
    for _ in 0..200 {
        let game = Game::start();
        assert!(1 <= game.secret && game.secret <= 100);
        assert_eq!(game.guess_count, 0);
    }
}

#[test]
fn started_games_differ() {
    let first = Game::start().secret;
    assert!((0..2000).any(|_| Game::start().secret != first));
}

#[test]
fn run_plays_one_game_over_the_lines() {
    let all: Vec<String> = (1..=100).map(|n| n.to_string()).collect();
    let played = run(&all);
    assert!(!played.is_empty() && played.len() <= 8);
    for turn in &played[..played.len() - 1] {
        assert!(matches!(turn, Turn::Goes { reply: Reply::TooSmall, .. }));
    }
    match played[played.len() - 1] {
        Turn::Won { tries } => assert_eq!(usize::from(tries), played.len()),
        Turn::Lost { reply, answer } => {
            assert_eq!(played.len(), 8);
            assert_eq!(reply, Reply::TooSmall);
            assert!(answer > 8);
        }
        Turn::Goes { .. } => panic!("a hundred lines end every game"),
    }
}

#[test]
fn every_white_space_character_is_trimmed() {
    let white: Vec<char> = ('\u{9}'..='\u{d}')
        .chain(['\u{20}', '\u{85}', '\u{a0}', '\u{1680}'])
        .chain('\u{2000}'..='\u{200a}')
        .chain(['\u{2028}', '\u{2029}', '\u{202f}', '\u{205f}', '\u{3000}'])
        .collect();
    assert_eq!(white.len(), 25);
    for c in white {
        assert_eq!(guess_of(&format!("{c}5{c}{c}")), 5);
        assert_eq!(guess_of(&format!("5{c}5")), 0);
    }
}

#[test]
fn what_is_no_white_space_stays() {
    for c in ['\u{8}', '\u{e}', '\u{1f}', '\u{180e}', '\u{200b}', '\u{2060}', '\u{feff}', '_'] {
        assert_eq!(guess_of(&format!("{c}5")), 0);
        assert_eq!(guess_of(&format!("5{c}")), 0);
    }
}

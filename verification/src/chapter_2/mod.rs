pub mod guessing_game;

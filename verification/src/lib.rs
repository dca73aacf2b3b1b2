//! A single-player word-guessing game.
//!
//! A fixed secret word is chosen at construction; the player submits one
//! character at a time. Incorrect guesses consume lives; the game ends in a
//! win once every letter of the secret word has been guessed, or in a loss
//! once the lives run out. The state machine lives in [`game`]; [`input`]
//! holds the pure part of reading a guess from a line of text.

pub mod game;
pub mod input;

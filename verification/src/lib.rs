//! A terminal word-guessing game library.
//!
//! The secret answer and each guess are words of exactly five letters.  Every
//! guess is classified letter by letter — right position, present elsewhere,
//! or absent — the verdicts are rendered as a feedback line, and a game state
//! machine enforces the attempt limit and decides win or loss.  Fetching the
//! answer word over the network and prompting at the terminal are left to the
//! surrounding binary; this crate holds the rules.

pub mod classify;
pub mod game;
pub mod render;
pub mod text;
pub mod words;

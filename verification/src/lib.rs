//! A verified scorer for a three-way cyclic game (rock/paper/scissors).
//!
//! Input lines carry two single-character tokens. The first names the
//! opponent's move; the second is read either as the player's own move
//! or as the outcome the player wants, and each round is scored from a
//! fixed value table. The library parses lines, resolves rounds under
//! both readings, and sums the scores, with every step specified and
//! proved.

pub mod game;
pub mod parse;
pub mod score;

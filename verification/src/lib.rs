//! The rules of a game of characters, boosters and moves for any number of
//! players, who all choose at once: a game takes one batch of choices at a
//! time, checks it against what each player may choose, and moves on through
//! its phases until one player has the points to win.

pub mod choices;
pub mod counters;
pub mod game;
pub mod helpers;
pub mod outcomes;
pub mod players;
pub mod prelude;
pub mod scoreboard;

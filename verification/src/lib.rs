//! Rules of a small tile-grid card game: a player token stands on a square
//! grid, holds a hand of single-use cards and spends them to move, to gain
//! armor or health, or to use a key.
//!
//! The functions here carry contracts that Verus checks. One call is taken on
//! trust and marked where it is made: the standard library brings card names
//! to upper case. Rendering and input polling live outside this library and
//! hand it plain values.

pub mod card;
pub mod explainer;
pub mod game;
pub mod grid;
pub mod level_manager;
pub mod player;
pub mod targeting;

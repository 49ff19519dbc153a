//! Rules engine for a two-player, turn-based territory-and-combat strategy
//! simulation: an immune system and a pathogen compete for control of a map of
//! zones, each zone carrying a 16x16 tactical grid of units.
//!
//! The crate is a pure, synchronous state transformer: every entry point takes
//! the affected entities, validates all preconditions, and either applies the
//! whole effect or returns a typed error having changed nothing.

pub mod arith;
pub mod game;
pub mod grid;
pub mod players;
pub mod unit;
pub mod expand_zone;
pub mod join_game;
pub mod play;

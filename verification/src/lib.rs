//! Core of a tile-based gravity puzzle: the player places circular bodies
//! ("planets") one by one onto an integer grid; placed planets pull each other
//! along shared rows and columns, one tile per simulation pass at most; the
//! level is failed when two planets end up on the same tile and solved when
//! every planet is placed and at rest.
//!
//! This crate holds the verified simulation core only: planet and level state,
//! the placement/removal controller, the gravity pass with collision
//! detection, and session-level progression and scoring. Rendering, audio and
//! input polling live outside and talk to this core through plain values.

pub mod game_state;
pub mod level;
pub mod planet;
pub mod sim;

//! A verified core for a grid snake game.
//!
//! The snake lives on a bounded two-dimensional grid of integer cells.  Each
//! tick it advances one cell in the last direction submitted, its body
//! segments trail the head, and the game ends on a wall hit or a
//! self-collision.  Eating the fruit grows the body by one segment and moves
//! the fruit to a fresh random cell.  Rendering, input polling and tick
//! scheduling are left to a host shell; this crate owns the simulation rules.

pub mod geometry;
pub mod rng;
pub mod sim;

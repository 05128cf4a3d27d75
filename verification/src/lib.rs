//! Conway's Game of Life on a bounded square board: the rule that advances a
//! board by one generation, and the session state machine of an interactive
//! simulator that paints, plays, steps, clears and resizes such a board.

pub mod engine;
pub mod patterns;
pub mod session;

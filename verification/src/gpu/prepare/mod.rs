//! Prepare-phase data structures and per-cell decisions.

pub mod cells;
pub mod colors;
pub mod decorations;
pub mod frame;
pub mod shaped_frame;

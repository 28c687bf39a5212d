//! The logic of a transparent overlay that shows snap targets and column
//! boundaries on top of all other windows.
//!
//! Everything here works on plain values. The calls into the window system
//! and the process-wide statics belong to the program around this library: it
//! hands in what it read, and performs the commands that come back.

pub mod canvas;
pub mod color;
pub mod error;
pub mod hint;
pub mod laws;
pub mod overlay;
pub mod rect;
pub mod state;
pub mod worker;

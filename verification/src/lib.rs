//! Watching service units for state transitions.
//!
//! A watcher follows one unit through two independent change streams, one
//! for its active state and one for its load state, and turns every accepted
//! change into one line of text. A supervisor keeps one watcher per unit and
//! outlives the failure of any of them. The types here hold the decisions;
//! the caller owns the bus connection and performs the waiting and writing.

pub mod cli;
pub mod path;
pub mod state;
pub mod supervisor;
pub mod trace;
pub mod unit;
pub mod watcher;

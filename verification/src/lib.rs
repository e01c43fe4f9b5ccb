//! Turns game-controller input events into pointer and key events.
//!
//! The crate holds the pure parts of a controller-as-mouse driver: the
//! response curve of the analog stick, the table that translates physical
//! events into virtual ones, and the state machine that repeats the last
//! motion of each axis while the stick is held.

pub mod axis;
pub mod codes;
pub mod config;
pub mod event;
pub mod scheduler;
pub mod translate;

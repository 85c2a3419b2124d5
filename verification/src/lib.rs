//! A line-oriented terminal pager library.
//!
//! The heart of the pager is a small state machine: a loaded document plus a
//! scroll offset, moved by clamped scroll commands, and a pure compositor
//! that maps that state onto a fixed-size drawing area every frame. Those
//! parts live here, with their invariants proved. Terminal setup, drawing
//! and blocking input are left to the surrounding application.

pub mod compose;
pub mod error;
pub mod event;
pub mod state;
pub mod text;

//! A terminal countdown timer library: a timer state record, an event
//! dispatcher, render computations that emit draw commands, and the
//! poll-loop step that drives them.
pub mod duration_text;
pub mod progress;
pub mod events;
pub mod poll;
pub mod render;
pub mod state;

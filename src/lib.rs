//! A minimal append-only text editor: the editing engine that turns key
//! events into buffer changes, cursor moves and redraw instructions.
pub mod engine;
pub mod lines;

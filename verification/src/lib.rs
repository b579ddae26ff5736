//! Core of a single-process audio playback daemon: the playback state
//! machine, the command dispatch rules, and the response wire encoding.
//!
//! The daemon binary around this library owns the real audio sink and the
//! socket. Before each operation it observes the sink (`SinkState`), lets the
//! library decide the outcome, and then honours the returned `SinkEffect` on
//! the real sink, so that the verified transition rules are the only place
//! where playback decisions are made.

pub mod strutil;
pub mod response;
pub mod player;
pub mod dispatch;
pub mod json_out;
pub mod json_in;
pub mod laws;

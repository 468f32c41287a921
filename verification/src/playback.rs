//! The interactive playback engine: a playlist, a cursor on the track that is
//! loaded, and a three-state machine driven by commands, progress ticks, a
//! debounce timer and cancellation.
//!
//! The engine never touches the audio device. For each input the loop
//! around it asks `plan` which one operation on the sink the input calls
//! for, carries that operation out, and hands the input to `handle` together
//! with the sink's answer. `handle` changes the state and returns the events
//! to send. `model` describes both as a mathematical state machine, and
//! `laws` proves what holds of it for every state and every input.

pub mod internal;
pub mod laws;
pub mod model;
pub mod types;

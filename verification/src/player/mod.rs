//! Playback: the engine's status model, the output sink's decisions and the
//! player façade's state machine.

pub mod engine;
pub mod sink;
pub mod playback;
pub mod mpris;

//! A single-owner decode-and-playback engine: transport commands, the
//! per-step playback decisions, preloading, seeking, looping and progress.
//! Demuxing, decoding and audio output are done by the caller, which hands
//! the engine the results as plain values.

pub mod state;
pub mod timing;
pub mod engine;
pub mod laws;

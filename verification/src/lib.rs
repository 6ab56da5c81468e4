//! Core logic of a small desktop audio player with a decorative
//! waveform animation.
//!
//! The library models the three pieces of the application that carry
//! actual logic: the FIFO command channel between the UI thread and
//! the audio thread together with the playback-state transitions of
//! the audio thread (`commands`), the time-gated animation phase
//! (`animation`), and the UI state machine that reacts to button
//! presses and file-dialog outcomes (`visualizer`). The GUI toolkit,
//! the file dialog and the audio output device are external
//! collaborators driven by a thin unverified shell around this crate.

pub mod animation;
pub mod commands;
pub mod visualizer;

//! Playback orchestration for a voice-channel music bot: per-guild sessions,
//! their queues, the now-playing status message and automatic teardown.
//!
//! Nothing here talks to the chat platform, the voice transport or the audio
//! server. Every command and every report is a transition of the session
//! store that returns the outside work to carry out: the track to start, the
//! message to delete, the teardown to perform. The caller performs the work
//! and reports back what happened. Callers that handle one guild's commands
//! and reports one at a time get the guarantees stated in [`laws`].

pub mod autocompletes;
pub mod commands;
pub mod error_handler;
pub mod errors;
pub mod events;
pub mod laws;
pub mod logic;
pub mod models;
pub mod queue;
pub mod render;
pub mod replies;
pub mod resolver;
pub mod state;
pub mod text;

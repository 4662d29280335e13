//! Core of a voice-channel music bot: per-guild session lifecycle, the
//! playback queue, track-metadata resolution with a probed cache, and the
//! event-driven transitions between disconnected, connecting and connected
//! states. Gateway, transport and resolver I/O live outside this crate and
//! feed plain values and events into the functions here.

pub mod assoc;
pub mod cache;
pub mod config;
pub mod errors;
pub mod metadata;
pub mod queue;
pub mod registry;
pub mod resolver;
pub mod session;

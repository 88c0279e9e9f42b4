//! Verified core of a macOS voice-processing (echo-cancelling) audio backend.
//!
//! The library holds the decisions of the backend: the error values built
//! from Core Audio status codes, the order in which the VoiceProcessingIO
//! unit is configured, the playback queue that feeds the speaker, the sizes
//! used by the real-time callbacks, and the assembly of the device list.
//! Everything that touches the operating system lives with the caller.

pub mod config;
pub mod status;
pub mod playback;
pub mod setup;
pub mod callbacks;
pub mod devices;

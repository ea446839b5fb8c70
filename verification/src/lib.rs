//! Core of a push-to-talk dictation tool: a recording session state machine
//! that accumulates PCM audio into a WAV container, a fixed-point level meter,
//! and a transcription client that builds provider requests and classifies
//! provider failures.

use vstd::prelude::*;

pub mod classify;
pub mod config;
pub mod level;
pub mod wav;
pub mod errors;
pub mod persist;
pub mod provider;
pub mod json;
pub mod session;
pub mod stt;
pub mod text;

verus! {

/// Scale of the fixed-point audio level: levels range over `0 ..= LEVEL_SCALE`.
pub const LEVEL_SCALE: u32 = 10000;

} // verus!

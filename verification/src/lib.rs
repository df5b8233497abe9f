//! A streaming conversational pipeline for a voice-agent bridge.
//!
//! Room audio is resampled for a transcription service, transcript
//! fragments are accumulated into model-ready utterances, model output
//! is re-segmented into speakable chunks, and chunks are dispatched to
//! voice synthesis in order.  Connection management for the
//! transcription socket is modelled as a small reconnecting state
//! machine.

pub mod accumulator;
pub mod audio;
pub mod boundary;
pub mod bridge;
pub mod completion;
pub mod dispatch;
pub mod events;
pub mod msg;
pub mod session;

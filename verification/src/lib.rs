//! Core of a chunked capture-and-annotate pipeline.
//!
//! The library models and verifies the stateful heart of the pipeline: a
//! bounded conversation history, the recording session state machine that a
//! capture loop and request handlers share, and an append-only log channel
//! that fans records out to live subscribers. The surrounding process (HTTP
//! front door, microphone subprocess, speech-to-text and chat services, file
//! storage) stays outside and talks to this core through plain values.

pub mod capture;
pub mod channel;
pub mod clock;
pub mod context;
pub mod encode;
pub mod history;
pub mod record;
pub mod session;

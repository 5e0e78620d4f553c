//! A load-test harness core for streaming PCM audio to a speech service over
//! many concurrent connections: the lossy fanout channel, per-connection
//! statistics, protocol-event classification, the worker and shutdown state
//! machines, and the pure helpers they rely on. Alongside it, the verified
//! logic of the companion clients: the text-to-speech terminal client's state
//! and settings, the podcast generator's flow and script reader, the
//! transcription client's redaction option and the recorder's format choice.

pub mod text;
pub mod event;
pub mod stats;
pub mod fanout;
pub mod source;
pub mod worker;
pub mod coordinator;
pub mod connection;
pub mod config;
pub mod tui_state;
pub mod redact;
pub mod podcast;
pub mod recorder;
pub mod transcription;
pub mod tts;

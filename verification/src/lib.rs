//! Core of an audio-to-transcript pipeline.
//!
//! The crate has three parts:
//!
//! * [`wav`] - a verified encoder (and checking decoder) for the fixed
//!   mono / 16 kHz / 16-bit integer PCM container that the pipeline sends
//!   to the transcription service;
//! * [`gateway`] - the per-call pipeline logic: building the request from a
//!   sample buffer with the fixed recognition parameters, and mapping the
//!   remote outcome to the caller's result;
//! * [`client_cell`] - the state machine of the lazily-initialized shared
//!   client, with a proof that a construction is started at most once.
//!
//! Network I/O, the async runtime and the float-to-integer sample conversion
//! live outside this crate; everything here is pure and verified.

pub mod client_cell;
pub mod gateway;
pub mod wav;

//! Core logic of a phone-line alarm listener: the modem handshake, the
//! integer stages of the tone-detection pipeline and the trigger debouncer.
//!
//! Every function here is pure: it takes plain values and returns plain
//! values. Serial I/O, clocks, sleeping and the frequency transform are the
//! caller's business.

pub mod audio;
pub mod config;
pub mod debounce;
pub mod handshake;
pub mod link;
pub mod listener;
pub mod reply;
pub mod tone;

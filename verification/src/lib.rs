//! Core of a streaming audio player: the sample frame, the bounded frame
//! queue between the decode worker and the output callback, the output
//! device's control state and callback, the decode pipeline's state machine,
//! and the playback controller that wires them together.
//!
//! Everything here is sequential and free of I/O. The hardware stream, the
//! demuxer and decoder, the threads and the sleeping live outside: they hand
//! this library plain values and carry out the actions it returns.

pub mod audio;
pub mod info;
pub mod metadata;
pub mod player;

//! Audio data path: sample frames, the frame queue, the output device and
//! the decode pipeline.

pub mod buffer;
pub mod device;
pub mod sample;
pub mod source;

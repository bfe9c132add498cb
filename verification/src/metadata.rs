//! Metadata carried by the streams of a container.

pub mod ffmpeg;

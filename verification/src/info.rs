//! What is known about an opened media source.

pub mod media;

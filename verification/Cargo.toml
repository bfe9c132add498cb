[package]
name = "player_core"
version = "0.1.0"
edition = "2021"
publish = false

[dependencies]
ringbuf = "=0.2.8"
cpal = "=0.13.5"
ffmpeg-next = "=5.1.1"
ffmpeg-sys-next = "=5.1.1"
snafu = "=0.7.5"
libc = "0.2"
ffi_helpers = "=0.3.0"
widestring = "=1.0.2"

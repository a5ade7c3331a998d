[package]
name = "libav_player"
version = "0.1.0"
edition = "2021"
publish = false

[dependencies]
rusty_ffmpeg = "*"
url = "2"
anyhow = "1"
thiserror = "*"
tracing = "0.1"
tracing-subscriber = "0.3"

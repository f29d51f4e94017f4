[package]
name = "nvidia_video_codec"
version = "0.1.0"
edition = "2021"
publish = false

[dependencies]
flume = "0.11"
futures = "0.3"
once_cell = "1"
tracing = "0.1"

[package]
name = "ffmpeg_cli"
version = "0.1.0"
edition = "2021"
publish = false

[dependencies]
lazy_static = "1"
log = "0.4"
log4rs = "1"

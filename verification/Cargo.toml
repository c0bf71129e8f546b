[package]
name = "audio_enumerate"
version = "0.1.0"
edition = "2021"
publish = false

[dependencies]
anyhow = "1"
asio-sys = "0.2"
cpal = "0.13"

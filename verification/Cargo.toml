[package]
name = "audio_player"
version = "0.1.0"
edition = "2021"
publish = false

[dependencies]
cpal = "=0.15.3"
dasp_sample = "=0.11.0"

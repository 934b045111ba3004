[package]
name = "playback"
version = "0.1.0"
edition = "2021"
publish = false

[dependencies]
num_cpus = "*"
ffmpeg-next = "*"
smol = "*"
futures = "0.3"
glium = "0.31"
anyhow = "*"

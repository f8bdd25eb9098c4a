[package]
name = "bevy_jpeg2k"
version = "0.1.0"
edition = "2021"
publish = false

[dependencies]
anyhow = "=1.0.104"
jpeg2k = "=0.9.1"

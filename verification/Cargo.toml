[package]
name = "atari2600"
version = "0.1.0"
edition = "2021"
publish = false

[dependencies]
anyhow = "1"
bitflags = "2"
clap = { version = "4", features = ["derive"] }
env_logger = "0.10"
log = "0.4"
winit = { version = "0.28", default-features = false, features = ["x11"] }

[package]
name = "volfade"
version = "0.1.0"
edition = "2021"
publish = false

[dependencies]
clap = { version = "4", features = ["derive"] }
libpulse-binding = "*"
pulsectl-rs = "*"

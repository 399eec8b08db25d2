[package]
name = "abduction"
version = "0.1.0"
edition = "2021"
publish = false

[dependencies]
anyhow = "1"
atomic = "0.5"
binread = "2"
bytesize = "1"
clap = { version = "3", features = ["derive"] }
crossterm = "0.23"
hex_color = "1"
image = { version = "0.24", default-features = false, features = ["png"] }
parking_lot = "0.12"
pixels = "0.9"
smallvec = "1"
tui = "0.18"
winit = "0.26"
winit_input_helper = "0.12"

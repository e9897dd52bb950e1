[package]
name = "vaudio"
version = "0.1.0"
edition = "2021"
publish = false

[dependencies]
anyhow = "1"
clap = { version = "4", features = ["derive"] }
cpal = "0.15"
crossterm = "0.27"
rand = "0.8"
ratatui = "0.26"
rustfft = "6"

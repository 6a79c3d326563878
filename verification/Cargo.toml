[package]
name = "auto_clicker"
version = "0.1.0"
edition = "2021"
publish = false

[dependencies]
anyhow = "1"
evdev = { version = "0.13", features = ["serde"] }
humantime = "2"
humantime-serde = "1"
relm4 = "0.9"
serde = { version = "1", features = ["derive"] }
toml = "0.8"

[package]
name = "midi_mapper"
version = "0.1.0"
edition = "2021"
publish = false

[dependencies]
clap = { version = "4", features = ["derive"] }
crossbeam-channel = "0.5"
jack = "*"
serde = { version = "1", features = ["derive"] }
serde_json = "1"

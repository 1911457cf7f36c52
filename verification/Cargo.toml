[package]
name = "digisurf"
version = "0.1.0"
edition = "2021"
publish = false

[dependencies]
indexmap = "=2.14.2"
fuzzy-matcher = "=0.3.7"
ratatui = "=0.29.0"
crossterm = { version = "=0.28.1", features = ["serde"] }
clap = { version = "=4.6.7", features = ["derive"] }
serde = { version = "=1.0.229", features = ["derive"] }
toml = "=0.8.23"
directories = "=6.0.0"

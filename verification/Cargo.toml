[package]
name = "reapers_wf"
version = "0.1.0"
edition = "2021"
publish = false

[dependencies]
time = { version = "0.3", features = ["formatting", "parsing", "serde", "serde-well-known"] }
serde = { version = "1", features = ["derive"] }
toml = "0.8"
tokio = { version = "1", features = ["full"] }
reqwest = { version = "0.11", default-features = false, features = ["json", "rustls-tls"] }
ratatui = "0.24"
crossterm = "0.27"
notify-rust = "4"
compile-time = "0.2"

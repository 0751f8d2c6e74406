[package]
name = "renix"
version = "0.1.0"
edition = "2021"
publish = false

[dependencies]
tokio = { version = "*", features = ["sync", "rt-multi-thread", "macros"] }
serde = { version = "*", features = ["derive"] }
serde_json = "*"
toml = "*"
color-eyre = "*"
crossterm = "*"
ratatui = "*"
portable-pty = "*"
nix = { version = "*", features = ["term"] }

[package]
name = "dive_core"
version = "0.1.0"
edition = "2021"
publish = false

[dependencies]
serde_json = "=1.0.151"
dunce = "=1.0.5"
dirs = "=7.0.0"
nix = { version = "*", features = ["signal"] }

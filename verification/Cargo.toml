[package]
name = "ariel_core"
version = "0.1.0"
edition = "2021"
publish = false

[dependencies]
critical-section = { version = "1", features = ["std"] }
maitake-sync = "*"
once_cell = "1"
cfg-if = "1"
embassy-executor = "*"
embassy-futures = "*"
embassy-time = "*"
embedded-hal-async = "1"
anyhow = "1.0.92"
argh = "0.1.12"
camino = { version = "1.1.9", features = ["serde"] }
cargo_toml = { version = "0.21.0", features = ["features"] }
glob = "0.3.1"

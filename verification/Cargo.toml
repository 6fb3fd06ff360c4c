[package]
name = "fw16_kblight"
version = "0.1.0"
edition = "2021"
publish = false

[dependencies]
qmk-via-api = "*"
anyhow = "*"
serde = { version = "*", features = ["derive"] }
toml = "*"
nix = { version = "=0.29.0", features = ["fs"] }

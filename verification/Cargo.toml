[package]
name = "pkger"
version = "0.1.0"
edition = "2021"
publish = false

[dependencies]
merge-yaml-hash = "*"
serde = { version = "=1.0.229", features = ["derive"] }
serde_yaml = "=0.9.34"
toml = "=0.5.11"

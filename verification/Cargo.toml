[package]
name = "nix_health"
version = "0.1.0"
edition = "2021"
publish = false

[dependencies]
anyhow = "1"
bytesize = { version = "1", features = ["serde"] }
colored = "2"
itertools = "0.12"
os_info = "3"
semver = "1"
serde = { version = "1", features = ["derive"] }
serde_json = "1"
url = { version = "2", features = ["serde"] }

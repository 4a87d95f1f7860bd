[package]
name = "testquorum"
version = "0.1.0"
edition = "2021"
publish = false

[dependencies]
base64 = "0.22"
sha2 = "0.10"
ed25519-dalek = "2"
serde = { version = "1", features = ["derive"] }
serde_json = "1"
toml = "0.8"
rand = "0.9"
git2 = { version = "0.20", default-features = false }
which = "7"
anyhow = "1"
clap = { version = "4", features = ["derive"] }
tempfile = "3"

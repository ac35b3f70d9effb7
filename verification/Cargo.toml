[package]
name = "pseudo_rhythm"
version = "0.1.0"
edition = "2021"
publish = false

[dependencies]
rand = "=0.8.8"
rustysynth = "=1.3.8"
rodio = { version = "=0.17.3", default-features = false }
thiserror = "=1.0.69"
log = "=0.4.34"
serde = { version = "1", features = ["derive"] }
serde_json = "1"

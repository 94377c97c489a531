[package]
name = "pixlab"
version = "0.1.0"
edition = "2021"
publish = false

[dependencies]
photon-rs = "*"
image = "*"
serde = { version = "*", features = ["derive"] }
serde_json = "*"
log = "*"

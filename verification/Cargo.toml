[package]
name = "three"
version = "0.1.0"
edition = "2021"
publish = false

[dependencies]
cgmath = { version = "=0.18.0", features = ["mint"] }
log = "=0.4.34"
mint = "=0.5.9"

[dev-dependencies]
froggy = "=0.4.4"

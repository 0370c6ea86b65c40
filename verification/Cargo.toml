[package]
name = "csp"
version = "0.1.0"
edition = "2021"
publish = false

[dependencies]
flate2 = "=1.1.10"
sha2 = "=0.11.0"
hex = "=0.4.3"
serde = { version = "=1.0.229", features = ["derive"] }
rmp-serde = "=1.3.1"
smol = "=2.0.2"

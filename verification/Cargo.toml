[package]
name = "ergvein_protocol"
version = "0.1.0"
edition = "2021"
publish = false

[dependencies]
fix = "=0.1.1"
flate2 = "=1.1.10"

[dev-dependencies]
rand = "=0.8.8"

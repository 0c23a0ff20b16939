[package]
name = "track"
version = "0.1.0"
edition = "2021"
publish = false

[dependencies]
bincode = "=1.3.3"
crossbeam-channel = "=0.5.17"
rmp-serde = "=1.3.1"
serde = "=1.0.229"

[package]
name = "spatial_channel"
version = "0.1.0"
edition = "2021"
publish = false

[dependencies]
atomic = "0.4"

[dev-dependencies]
rand = "0.5"

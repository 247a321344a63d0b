[package]
name = "apc40mk2_bridge"
version = "0.1.0"
edition = "2021"
publish = false

[dependencies]
midir = "0.10"
parking_lot = "0.12"
serde = { version = "1", features = ["derive"] }

[package]
name = "vexide_simulator_protocol"
version = "0.1.0"
edition = "2021"
publish = false

[dependencies]
base64 = "0.22"
mint = { version = "0.5", features = ["serde"] }
rgb = { version = "0.8", features = ["serde"] }
serde = { version = "1", features = ["derive"] }
serde_json = "1"

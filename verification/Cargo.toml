[package]
name = "lodge_rates"
version = "0.1.0"
edition = "2021"
publish = false

[dependencies]
serde_json = "1"
chrono = "0.4"
serde = { version = "1", features = ["derive"] }
tide = "0.16"
surf = "2"
async-std = { version = "1", features = ["attributes"] }

[package]
name = "nanorpc"
version = "0.1.0"
edition = "2021"
publish = false

[dependencies]
serde_json = "=1.0.151"
syn = { version = "=3.0.6", features = ["full"] }
quote = "=1.0.47"

[package]
name = "light_api"
version = "0.1.0"
edition = "2021"
publish = false

[dependencies]
base64 = "=0.23.1"
serde = { version = "1", features = ["derive"] }
serde_json = "=1.0.151"
sp-core = "=43.0.0"
tokio = { version = "=1.53.2", features = ["sync"], default-features = false }
uuid = { version = "=1.27.0", features = ["serde"] }

[package]
name = "sx_vault_media"
version = "0.1.0"
edition = "2021"
publish = false

[dependencies]
infer = "=0.15.0"
serde = { version = "=1.0.229", features = ["derive"] }
thiserror = "=2.0.21"
tokio = { version = "=1.54.1", features = ["full"] }
tokio-stream = { version = "=0.1.19", features = ["sync"] }
tokio-util = { version = "=0.7.20", features = ["io"] }
tonic = "=0.12.3"
prost = "=0.13.5"
uuid = { version = "=1.29.0", features = ["v4"] }
bytes = "=1.12.1"
colored = "=3.1.1"
async-trait = "=0.1.92"

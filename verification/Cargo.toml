[package]
name = "rpc_gateway"
version = "0.1.0"
edition = "2021"
publish = false

[dependencies]
alloy = { version = "=2.5.0", default-features = false, features = ["std", "rpc-types"] }
log = "=0.4.34"
serde_json = "=1.0.154"
tokio = { version = "=1.54.1", features = ["sync"] }

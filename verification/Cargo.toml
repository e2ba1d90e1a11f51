[package]
name = "rpc_router"
version = "0.1.0"
edition = "2021"
publish = false

[dependencies]
uuid = { version = "1", features = ["v4", "v7"] }
data-encoding = "2"
bs58 = "0.5"
serde = { version = "1", features = ["derive"] }
serde_json = "1"
futures = "0.3"

[package]
name = "corepc_client"
version = "0.1.0"
edition = "2021"
publish = false

[dependencies]
jsonrpc = { version = "=0.21.0", features = ["client_async", "bitreq_http_async"] }
serde = { version = "=1.0.229", features = ["derive"] }
serde_json = "=1.0.154"

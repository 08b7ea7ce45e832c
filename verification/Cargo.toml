[package]
name = "chain_indexer"
version = "0.1.0"
edition = "2021"
publish = false

[dependencies]
num-bigint = "0.4"
chrono = "0.4"
sha2 = "0.10"
hex = "0.4"
url = "2"
uuid = { version = "1", features = ["v4"] }
serde = { version = "1", features = ["derive"] }
serde_json = "1"
reqwest = { version = "0.11", default-features = false, features = ["json", "rustls-tls"] }
futures = "0.3"
async-trait = "0.1"
jsonrpsee = { version = "0.20", features = ["http-client"] }
redis = { version = "0.23", features = ["tokio-comp"] }
thiserror = "1"
async-std = "1"

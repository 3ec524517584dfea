[package]
name = "xmbl"
version = "0.1.0"
edition = "2021"
publish = false

[dependencies]
anyhow = "1"
axum = "0.7"
chrono = "0.4"
futures-util = "0.3"
hex = "0.4"
hostname = "0.4"
log = "0.4"
num_cpus = "1"
rand = "0.8"
reqwest = { version = "0.12", default-features = false, features = ["json"] }
secp256k1 = { version = "0.29", features = ["rand", "serde"] }
serde = { version = "1", features = ["derive"] }
serde_json = "1"
sha2 = "0.10"
sha3 = "0.10"
tokio = { version = "1", features = ["full"] }
tokio-tungstenite = "0.21"
tower-http = { version = "0.5", features = ["cors"] }
uuid = { version = "1", features = ["v4"] }

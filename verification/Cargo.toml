[package]
name = "coeus_oracle"
version = "0.1.0"
edition = "2021"
publish = false

[dependencies]
anyhow = "1"
axum = "0.7"
bcs = "0.1"
bech32 = "0.11"
fastcrypto = "0.1"
rand = "0.8"
reqwest = { version = "0.12", default-features = false, features = ["blocking", "rustls-tls"] }
rhai = "1"
serde = { version = "1", features = ["derive"] }
serde_json = "1"
sui-rpc = "*"
sui-sdk-types = "*"
tokio = { version = "1", features = ["full"] }
tower-http = { version = "0.6", features = ["cors"] }
tracing = "0.1"

[package]
name = "pqc_rust"
version = "0.1.0"
edition = "2021"
publish = false

[dependencies]
pqcrypto-kyber = "0.8"
pqcrypto-traits = "0.3"
rand_core = { version = "0.6", features = ["std"] }
rand = "0.8"
zeroize = "1"
thiserror = "1"
hex = "0.4"
serde = { version = "1", features = ["derive"] }
axum = "0.7"
tokio = { version = "1", features = ["full"] }
tower-http = { version = "0.5", features = ["cors"] }

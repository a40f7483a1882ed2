[package]
name = "forward_gateway"
version = "0.1.0"
edition = "2021"
publish = false

[dependencies]
rand = "=0.10.3"
wreq = "=0.15.3"
wreq-util = "=0.1.0"
serde = { version = "=1.0.229", features = ["derive"] }
serde_json = "=1.0.151"
anyhow = "=1.0.104"
axum = "=0.8.9"
tokio = { version = "=1.53.2", features = ["rt-multi-thread", "macros", "net", "time"] }

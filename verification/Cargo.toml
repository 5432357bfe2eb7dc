[package]
name = "ord_rest"
version = "0.1.0"
edition = "2021"
publish = false

[dependencies]
axum = "0.6"
base64 = "0.21"
bitcoin = "0.30"
serde = { version = "1", features = ["derive"] }
serde_json = "1"

[package]
name = "media_proxy"
version = "0.1.0"
edition = "2021"
publish = false

[dependencies]
axum = "*"
futures-util = "*"
reqwest = { version = "*", default-features = false, features = ["stream"] }
serde = { version = "*", features = ["derive"] }
tokio = { version = "*", features = ["rt-multi-thread", "net", "macros"] }

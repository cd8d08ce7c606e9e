[package]
name = "rust_chat"
version = "0.1.0"
edition = "2021"
publish = false

[dependencies]
bytes = "1"
futures-util = { version = "0.3", features = ["sink"] }
serde = { version = "1", features = ["derive"] }
serde_json = "1"
tokio = { version = "1", features = ["full"] }
tokio-util = { version = "0.7", features = ["codec"] }

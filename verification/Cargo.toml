[package]
name = "velmora_desktop"
version = "0.1.0"
edition = "2021"
publish = false

[dependencies]
futures = "0.3"
reqwest = { version = "0.12", default-features = false, features = ["json", "rustls-tls"] }
serde = { version = "1", features = ["derive"] }
serde_json = "1"
thiserror = "2"
tokio = { version = "1", features = ["time"] }
url = "2"

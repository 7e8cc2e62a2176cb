[package]
name = "aeron-cache-embedded-client"
version = "0.1.0"
edition = "2021"
publish = false

[dependencies]
url = "2"
serde = { version = "1", features = ["derive"] }
serde_json = "1"
tungstenite = "0.20"
reqwest = { version = "0.11", default-features = false, features = ["blocking", "json", "rustls-tls"] }

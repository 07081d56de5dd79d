[package]
name = "wan_reconnect"
version = "0.1.0"
edition = "2021"
publish = false

[dependencies]
minijinja = "2"
reqwest = { version = "0.12", default-features = false, features = ["blocking", "json"] }
rocket = "0.5"
serde = { version = "1", features = ["derive"] }
serde_json = "1"
uuid = { version = "1", features = ["v4"] }

[package]
name = "exchange"
version = "0.1.0"
edition = "2021"
publish = false

[dependencies]
chrono = "*"
futures = "*"
hex = "*"
hmac = "*"
reqwest = { version = "*", default-features = false }
serde = { version = "*", features = ["derive"] }
serde_json = "*"
serde_qs = "*"
sha2 = "*"
tokio = { version = "*", features = ["macros", "rt-multi-thread"] }
tokio-tungstenite = "*"
tracing = "*"
tracing-subscriber = "*"
url = "*"
uuid = { version = "*", features = ["v4"] }

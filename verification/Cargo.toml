[package]
name = "rust_api"
version = "0.1.0"
edition = "2021"
publish = false

[dependencies]
axum = "0.7"
axum-extra = { version = "0.9", features = ["multipart"] }
chrono = { version = "0.4", features = ["serde"] }
colored = "2"
google-drive3 = "6"
hyper-util = { version = "0.1", features = ["client-legacy", "http1", "tokio"] }
jsonwebtoken = "9"
log = "0.4"
mongodb = "3"
oauth2 = "4"
reqwest = { version = "0.11", default-features = false, features = ["json", "multipart", "rustls-tls"] }
serde = { version = "1", features = ["derive"] }
serde_json = "1"
tokio = { version = "1", features = ["full"] }
tokio-util = { version = "0.7", features = ["io"] }
tower = { version = "0.5", features = ["util"] }
tower-http = { version = "0.6", features = ["cors", "trace"] }
tracing = "0.1"
tracing-subscriber = "0.3"
uuid = { version = "1", features = ["v4", "serde"] }

[package]
name = "kagisearch"
version = "0.1.0"
edition = "2021"
publish = false

[dependencies]
chromiumoxide = { version = "*", default-features = false, features = ["tokio-runtime"] }
futures = "0.3"
futures-timer = "3"
serde = { version = "1", features = ["derive"] }
thiserror = "*"
tokio = { version = "1", features = ["rt", "sync"] }
tracing = "0.1"
url = "2"

[package]
name = "media_journal"
version = "0.1.0"
edition = "2021"
publish = false

[dependencies]
chrono = "*"
colored = "*"
dotenv = "*"
mongodb = { version = "*", features = ["sync"] }
reqwest = { version = "*", default-features = false, features = ["blocking", "multipart", "rustls-tls"] }
serde = { version = "*", features = ["derive"] }
serde_json = "*"

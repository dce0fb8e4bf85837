[package]
name = "dbcore"
version = "0.1.0"
edition = "2021"
publish = false

[dependencies]
libsql = "*"
serde = { version = "*", features = ["derive"] }
serde_json = "*"
tokio = { version = "*", features = ["rt", "sync", "time"] }

[package]
name = "kafkust"
version = "0.1.0"
edition = "2021"
publish = false

[dependencies]
anyhow = "1"
keyring = "3"
rdkafka = "0.39"
serde = { version = "1", features = ["derive"] }
sqlx = { version = "0.8", default-features = false, features = ["sqlite", "runtime-tokio"] }
tauri = { version = "2", default-features = false }
thiserror = "2"
uuid = { version = "1", features = ["v4", "serde"] }

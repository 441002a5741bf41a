[package]
name = "db_backup"
version = "0.1.0"
edition = "2021"
publish = false

[dependencies]
bytes = "=1.12.1"
anyhow = "1"
tokio = { version = "1", features = ["process", "io-util", "rt", "net", "time"] }
log = "0.4"
env_logger = "0.11"
serde = { version = "1", features = ["derive"] }

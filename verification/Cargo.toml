[package]
name = "s3_fileserver"
version = "0.1.0"
edition = "2021"
publish = false

[dependencies]
chrono = { version = "0.4", features = ["serde"] }
url = "2"
serde = { version = "1", features = ["derive"] }
serde_json = "1"
actix-web = { version = "4", default-features = false, features = ["macros"] }
actix-multipart = { version = "0.6", default-features = false }
actix-cors = "0.7"
actix-files = "0.6"
futures-util = "0.3"
tokio = { version = "1", features = ["macros", "rt-multi-thread"] }
redis = { version = "0.24", default-features = false }
rust-s3 = { version = "0.34", default-features = false, features = ["tokio-rustls-tls"] }
anyhow = "1"
log = "0.4"
env_logger = { version = "0.11", default-features = false }
tracing-subscriber = { version = "0.3", default-features = false, features = ["fmt", "json"] }
dotenvy = "0.15"
once_cell = "1"

[package]
name = "bucket_gateway"
version = "0.1.0"
edition = "2021"
publish = false

[dependencies]
rust-s3 = "*"
axum = "*"
axum-extra = { version = "*", features = ["typed-header"] }
clap = { version = "*", features = ["derive"] }
tokio = { version = "*", features = ["full"] }
tracing = "*"
tracing-subscriber = "*"
serde_json = "*"

[package]
name = "text_upload"
version = "0.1.0"
edition = "2021"
publish = false

[dependencies]
anyhow = "1"
lambda_runtime = "0.4"
log = "0.4"
rusoto_core = "0.48"
rusoto_mock = "0.48"
rusoto_s3 = "0.48"
serde = { version = "1", features = ["derive"] }
simple_logger = "1"
tokio = { version = "1", features = ["macros", "rt-multi-thread"] }

[package]
name = "aws_kinesis_firehose"
version = "0.1.0"
edition = "2021"
publish = false

[dependencies]
base64 = "0.13"
chrono = { version = "0.4", default-features = false, features = ["clock", "std", "serde"] }
flate2 = "1.0"
futures = "0.3"
serde = { version = "1.0", features = ["derive"] }
serde_json = "1.0"
tokio = { version = "1", features = ["sync", "rt"] }
toml = "0.5"
tracing = "0.1"
warp = { version = "0.3", default-features = false }

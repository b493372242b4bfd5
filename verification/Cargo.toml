[package]
name = "aws_image_upload"
version = "0.1.0"
edition = "2021"
publish = false

[dependencies]
aws-config = "=1.12.0"
aws-sdk-s3 = "=1.152.0"
aws-types = "=1.6.0"
axum = { version = "=0.7.9", features = ["multipart"] }
chrono = "=0.4.45"
serde_json = "=1.0.154"
tokio = { version = "=1.54.1", features = ["full"] }
tower-http = { version = "=0.5.2", features = ["cors"] }
tracing-subscriber = { version = "=0.3.23", features = ["env-filter"] }

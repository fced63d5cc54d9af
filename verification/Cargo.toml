[package]
name = "filedrop"
version = "0.1.0"
edition = "2021"
publish = false

[dependencies]
anyhow = "1"
aws-config = "0.12"
aws-sdk-s3 = "0.12"
axum = { version = "0.5", features = ["multipart"] }
base64 = "0.13"
chrono = "0.4"
dotenv = "0.15"
futures-util = "0.3"
mime_guess = "2"
nanorand = "0.7"
sqlx = { version = "0.6", default-features = false, features = ["postgres", "runtime-tokio-rustls", "chrono"] }
tokio = { version = "1", features = ["full"] }
tokio-util = { version = "0.7", features = ["io"] }
tower-http = { version = "0.3", features = ["trace"] }
tracing = "0.1"
tracing-subscriber = "0.3"

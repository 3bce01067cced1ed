[package]
name = "tracing_s3"
version = "0.1.0"
edition = "2021"
publish = false

[dependencies]
anyhow = "1"
aws-credential-types = { version = "1", features = ["hardcoded-credentials"] }
aws-sdk-s3 = { version = "1", default-features = false, features = ["behavior-version-latest", "rt-tokio"] }
aws-types = "1"
chrono = "0.4"
dotenv = "0.15"
serde_json = "1"
tokio = { version = "1", features = ["macros", "rt-multi-thread", "sync", "time"] }
tracing = "0.1"
tracing-serde = "*"
tracing-subscriber = "0.3"
uuid = { version = "1", features = ["v4"] }

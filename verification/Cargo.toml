[package]
name = "bucket_sweep"
version = "0.1.0"
edition = "2021"
publish = false

[dependencies]
aws-config = "*"
aws-sdk-s3 = "*"
inquire = "*"
tokio = { version = "*", features = ["macros", "rt-multi-thread"] }

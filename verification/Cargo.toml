[package]
name = "nitro_cvv"
version = "0.1.0"
edition = "2021"
publish = false

[dependencies]
hex = "*"
des = "*"
anyhow = "*"
log = "*"
env_logger = "*"
chrono = "*"
tokio = { version = "*", features = ["rt-multi-thread", "macros", "io-util", "time", "signal", "sync"] }
tokio-util = "*"
tokio-vsock = "*"
aws-config = "*"
aws-sdk-kms = "*"
aws-sdk-secretsmanager = "*"
aws_secretsmanager_caching = "*"

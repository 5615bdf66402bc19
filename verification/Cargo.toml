[package]
name = "ore_miner"
version = "0.1.0"
edition = "2021"
publish = false

[dependencies]
aws-config = "*"
aws-sdk-cloudwatch = "*"
aws-types = "*"
chrono = "*"
clap = { version = "*", features = ["derive"] }
daemonize = "*"
dotenv = "*"
tokio = { version = "*", features = ["rt-multi-thread", "time"] }
tracing = "*"
tracing-appender = "*"
tracing-subscriber = "*"
which = "*"

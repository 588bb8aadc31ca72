[package]
name = "loved_core"
version = "0.1.0"
edition = "2021"
publish = false

[dependencies]
dotenvy = "*"
redis = { version = "*", features = ["tokio-comp"] }
tokio = { version = "1", features = ["rt-multi-thread", "macros", "time"] }
tokio-cron-scheduler = "*"

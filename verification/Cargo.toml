[package]
name = "cli_harness"
version = "0.1.0"
edition = "2021"
publish = false

[dependencies]
anyhow = "=1.0.104"
git2 = { version = "=0.21.0", default-features = false }
tokio = { version = "=1.54.1", features = ["fs", "process", "io-util", "time", "rt", "sync"] }
caps = "=0.5.6"
futures = { version = "=0.3.34", default-features = false, features = ["executor"] }
testcontainers = "*"
url = "*"

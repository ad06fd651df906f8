[package]
name = "plows-gpu"
version = "0.1.0"
edition = "2021"
publish = false

[dependencies]
libloading = "0.8"
anyhow = "1"
clap = { version = "4", features = ["derive"] }
colored = "2"
serde_json = "1"
thiserror = "1"
tracing = "0.1"
tracing-subscriber = { version = "0.3", features = ["env-filter"] }
whoami = "1"

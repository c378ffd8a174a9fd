[package]
name = "quick_assistant"
version = "0.1.0"
edition = "2021"
publish = false

[dependencies]
anyhow = "1"
async-openai = "0.28"
async-std = "1"
chrono = "0.4"
clap = { version = "4", features = ["derive"] }
colored = "2"
csv = "1"
dirs = "6"
dotenvy = "0.15"
flume = "0.11"
futures = "0.3"
humantime = "2"
once_cell = "1"
open = "5"
reqwest = { version = "0.12", default-features = false, features = ["json", "rustls-tls"] }
serde = { version = "1", features = ["derive"] }
serde_json = "1"
sysinfo = "0.33"
tempfile = "3"
tokio = { version = "1", features = ["full"] }
tracing = "0.1"
tracing-appender = "0.2"
tracing-subscriber = { version = "0.3", features = ["env-filter"] }
uuid = { version = "1", features = ["v4"] }

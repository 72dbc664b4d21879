[package]
name = "tts_proxy"
version = "0.1.0"
edition = "2021"
publish = false

[dependencies]
actix-web = "4"
anyhow = "1"
censor = "*"
clap = { version = "4", features = ["derive"] }
crossbeam-channel = "*"
fork = "*"
futures = "0.3"
governor = "*"
home = "*"
log = "0.4"
reqwest = { version = "0.12", default-features = false, features = ["json", "stream"] }
serde = { version = "1", features = ["derive"] }
serde_json = "1"
tokio = { version = "1", features = ["macros", "rt-multi-thread", "sync", "time"] }
tracing-appender = "*"
tracing-subscriber = { version = "*", features = ["env-filter"] }

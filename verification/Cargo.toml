[package]
name = "nexsock"
version = "0.1.0"
edition = "2021"
publish = false

[dependencies]
atty = "0.2"
anyhow = "1"
clap = { version = "4", features = ["derive"] }
serde = { version = "1", features = ["derive"] }
serde_json = "1"
serde_yaml = "0.9"
tokio = { version = "1", features = ["process", "rt-multi-thread", "macros", "time", "io-util", "sync"] }
tracing = "0.1"
tracing-subscriber = "0.3"
chrono = "0.4"
dotenvy = "0.15"
port-selector = "0.1"

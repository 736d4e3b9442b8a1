[package]
name = "isp_speedkarma"
version = "0.1.0"
edition = "2021"
publish = false

[dependencies]
chrono = { version = "=0.4.45", default-features = false, features = ["std", "clock"] }
rand = "=0.8.8"
serde = { version = "=1.0.229", features = ["derive"] }
serde_json = "=1.0.154"
thiserror = "=1.0.69"
tracing = "=0.1.44"
tracing-subscriber = "=0.3.23"
tokio = { version = "=1.54.1", features = ["rt-multi-thread", "macros", "time", "sync", "fs", "net", "io-util"] }
reqwest = { version = "=0.11.27", default-features = false, features = ["json", "rustls-tls"] }
sqlx = { version = "=0.7.4", default-features = false, features = ["runtime-tokio", "sqlite", "chrono"] }
sysinfo = "=0.30.13"
dirs = "=5.0.1"

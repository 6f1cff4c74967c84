[package]
name = "devmux"
version = "0.1.0"
edition = "2021"
publish = false

[dependencies]
tokio = { version = "*", features = ["rt-multi-thread", "sync", "time", "macros", "signal"] }
chrono = "*"
clap = { version = "*", features = ["derive"] }
tracing-subscriber = "*"

[package]
name = "clipmark"
version = "0.1.0"
edition = "2021"
publish = false

[dependencies]
obws = { version = "=0.15.0", features = ["events"] }
tokio = { version = "=1.53.2", features = ["rt-multi-thread", "macros", "sync", "time"] }
futures = "=0.3.34"
chrono = "=0.4.45"

[package]
name = "hr_monitor"
version = "0.1.0"
edition = "2021"
publish = false

[dependencies]
bluest = "*"
chrono = "0.4"
futures-lite = "*"
tokio = { version = "1", features = ["sync", "rt-multi-thread", "macros", "time"] }

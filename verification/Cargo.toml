[package]
name = "argus"
version = "0.1.0"
edition = "2021"
publish = false

[dependencies]
chrono = "*"
poem = { version = "*", features = ["static-files"] }
poem-openapi = { version = "*", features = ["scalar"] }
thiserror = "*"
tokio = { version = "*", features = ["macros", "rt-multi-thread", "signal", "time"] }
tracing = "*"
tracing-subscriber = "*"

[package]
name = "log_emitter"
version = "0.1.0"
edition = "2021"
publish = false

[dependencies]
bollard = "*"
chrono = "0.4"
futures-util = "0.3"
hostname = "*"
libsystemd = "*"
sysinfo = "*"
tokio = { version = "1", features = ["rt-multi-thread", "macros", "signal", "sync", "time", "io-util", "fs", "net"] }
tokio-util = { version = "0.7", features = ["rt"] }
tracing = "0.1"
tracing-journald = "*"
tracing-subscriber = { version = "0.3", features = ["env-filter", "fmt"] }

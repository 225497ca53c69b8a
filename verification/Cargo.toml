[package]
name = "worker_lifecycle"
version = "0.1.0"
edition = "2021"
publish = false

[dependencies]
cityhash = "*"
anyhow = "1"
log = "0.4"
libc = "0.2"
tokio = { version = "1", features = ["rt", "sync", "net", "signal", "time", "macros"] }
hyper = { version = "0.14", features = ["client", "http1"] }

[package]
name = "hyperlocal_with_windows"
version = "0.1.0"
edition = "2021"
publish = false

[dependencies]
tokio = { version = "1", features = ["sync", "net", "fs", "rt", "rt-multi-thread", "time", "io-util", "macros"] }
hyper = { version = "1", features = ["server", "http1"] }
hyper-util = { version = "0.1", features = ["tokio"] }
http-body-util = "0.1"
uds_windows = "1"

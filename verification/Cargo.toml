[package]
name = "cellio"
version = "0.1.0"
edition = "2021"
publish = false

[dependencies]
tokio = { version = "1", features = ["rt", "net", "macros", "sync", "time", "io-util"] }
hyper = { version = "0.14", features = ["server", "http1", "runtime"] }
fastwebsockets = { version = "0.4", features = ["upgrade"] }
rand = "0.8"

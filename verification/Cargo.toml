[package]
name = "witchcraft_server"
version = "0.1.0"
edition = "2021"
publish = false

[dependencies]
tokio = { version = "1", features = ["rt", "rt-multi-thread", "net", "time", "macros", "sync"] }
hyper = { version = "0.14", features = ["server", "http1", "runtime"] }
conjure-error = "*"
witchcraft-log = "*"

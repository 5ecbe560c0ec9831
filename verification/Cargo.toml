[package]
name = "rhei_tokio_rusqlite"
version = "0.1.0"
edition = "2021"
publish = false

[dependencies]
rusqlite = { version = "*", features = ["bundled"] }
crossbeam-channel = "0.5"
tokio = { version = "1", features = ["rt", "rt-multi-thread", "sync", "time"] }

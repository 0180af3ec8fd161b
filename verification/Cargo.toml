[package]
name = "plugin_runtime"
version = "0.1.0"
edition = "2021"
publish = false

[dependencies]
dunce = "1"
tokio = { version = "1", features = ["fs", "io-util", "macros", "net", "rt", "sync", "time"] }

[package]
name = "echo_core"
version = "0.1.0"
edition = "2021"
publish = false

[dependencies]
tokio = { version = "1", features = ["full"] }
pprof = { version = "*", default-features = false, features = ["flamegraph"] }

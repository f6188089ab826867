[package]
name = "backon"
version = "0.1.0"
edition = "2021"
publish = false

[dependencies]
fastrand = "2"
tokio = { version = "1", features = ["time", "rt", "rt-multi-thread", "macros", "sync"] }
tower = "0.5"

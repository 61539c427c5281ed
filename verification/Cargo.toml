[package]
name = "wake_probe"
version = "0.1.0"
edition = "2021"
publish = false

[dependencies]
futures-util = "*"
pin-project-lite = "*"
tokio = { version = "*", features = ["rt-multi-thread", "sync"] }

[package]
name = "bmc_core"
version = "0.1.0"
edition = "2021"
publish = false

[dependencies]
anyhow = "1"
evdev = "*"
tokio = { version = "1", default-features = false, features = ["sync", "rt", "time"] }

[package]
name = "rusty_eventide"
version = "0.1.0"
edition = "2021"
publish = false

[dependencies]
postgres = "0.19"
serde_json = "1"
rand = "0.8"
uuid = { version = "0.8", features = ["v4"] }
spin_sleep = "1"

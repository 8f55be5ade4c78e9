[package]
name = "script_runner"
version = "0.1.0"
edition = "2021"
publish = false

[dependencies]
serde = { version = "1", features = ["derive"] }
ts-rs = "*"
wait-timeout = "0.2"

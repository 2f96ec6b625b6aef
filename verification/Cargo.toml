[package]
name = "sigwatch"
version = "0.1.0"
edition = "2021"
publish = false

[dependencies]
atspi = "*"
tokio = { version = "*", features = ["macros", "rt-multi-thread"] }
tokio-stream = "*"
zbus = "*"

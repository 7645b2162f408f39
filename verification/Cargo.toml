[package]
name = "camera_manager"
version = "0.1.0"
edition = "2021"
publish = false

[dependencies]
v4l = "*"
tracing = "*"
tracing-subscriber = { version = "*", features = ["env-filter"] }
tracing-appender = "*"
tracing-log = "*"
chrono = "*"

[dev-dependencies]
url = "*"

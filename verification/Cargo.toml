[package]
name = "enki"
version = "0.1.0"
edition = "2021"
publish = false

[dependencies]
smithay = "=0.7.0"
smithay-drm-extras = "*"
xcursor = "=0.3.11"
tracing = "=0.1.44"
tracing-subscriber = { version = "=0.3.23", features = ["env-filter"] }

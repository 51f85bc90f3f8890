[package]
name = "display_backend"
version = "0.1.0"
edition = "2021"
publish = false

[dependencies]
drm = "*"
tracing-subscriber = { version = "*", features = ["env-filter"] }

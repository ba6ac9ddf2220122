[package]
name = "capture_pipeline"
version = "0.1.0"
edition = "2021"
publish = false

[dependencies]
anyhow = "*"
opencv = "*"
slint = { version = "*", default-features = false, features = ["std", "compat-1-2"] }

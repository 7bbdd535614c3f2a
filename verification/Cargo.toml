[package]
name = "lumberjack_axe"
version = "0.1.0"
edition = "2021"
publish = false

[dependencies]
chrono = "*"
serde_json = "*"
aws-config = { version = "*", default-features = false }
aws-sdk-cloudwatchlogs = { version = "*", default-features = false }
tokio = { version = "*", features = ["rt"] }
eframe = { version = "*", default-features = false, features = ["glow", "x11", "default_fonts"] }

[package]
name = "sparkle-convenience"
version = "0.1.0"
edition = "2021"
publish = false

[dependencies]
anyhow = "1"
titlecase = "2"
tokio = { version = "1", default-features = false, features = ["sync"] }
twilight-http = { version = "0.15", default-features = false }
twilight-model = "0.15"

[package]
name = "gittwo"
version = "0.1.0"
edition = "2021"
publish = false

[dependencies]
git2 = "0.20"
tokio = { version = "1", default-features = false, features = ["sync"] }

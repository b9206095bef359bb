[package]
name = "tinkoff_invest"
version = "0.1.0"
edition = "2021"
publish = false

[dependencies]
anyhow = "1"
attohttpc = { version = "*", features = ["json"] }
chrono = { version = "0.4", default-features = false, features = ["std"] }
serde_json = "1"
url = "2"

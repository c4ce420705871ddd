[package]
name = "stovbot"
version = "0.1.0"
edition = "2021"
publish = false

[dependencies]
time = "0.1"
rand = "0.7"
regex = "1"
base64 = "0.11"
rhai = "*"
rusqlite = { version = "0.21", features = ["bundled"] }
serde = { version = "1", features = ["derive"] }
serde_json = "1"
crossbeam = "0.7"

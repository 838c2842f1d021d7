[package]
name = "imgchest"
version = "0.1.0"
edition = "2021"
publish = false

[dependencies]
serde_json = "1"
scraper = "*"
url = "2"
time = { version = "0.3", features = ["parsing"] }
reqwest = { version = "0.12", default-features = false, features = ["cookies", "multipart", "stream"] }
serde = { version = "1", features = ["derive"] }
tokio = { version = "1", features = ["rt-multi-thread", "fs", "time"] }
tokio-util = { version = "*", features = ["codec"] }
anyhow = "1"
argh = "*"

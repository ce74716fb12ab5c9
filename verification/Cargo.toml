[package]
name = "sipbot"
version = "0.1.0"
edition = "2021"
publish = false

[dependencies]
chrono = "0.4"
chrono-tz = "0.8"
dotenv = "0.15"
pickledb = "0.5"
reqwest = "0.11"
scraper = "*"
serde = { version = "1", features = ["derive"] }
serde_json = "1"
serenity = "0.11"
thiserror = "1"
tokio = { version = "1", features = ["full"] }

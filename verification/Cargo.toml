[package]
name = "rss_telegram_bot"
version = "0.1.0"
edition = "2021"
publish = false

[dependencies]
rss = { version = "2", default-features = false }
rand = "0.8"
reqwest = "0.11"
tokio = { version = "1", features = ["macros", "rt-multi-thread", "sync", "time"] }
telegram-bot = "*"
dotenv = "*"
futures = "0.3"
lazy_static = "1"
serde = { version = "1", features = ["derive"] }
serde_json = "1"

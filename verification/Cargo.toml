[package]
name = "news_scraper"
version = "0.1.0"
edition = "2021"
publish = false

[dependencies]
chrono = "0.4"
reqwest = "0.12"
scraper = "*"
serde_json = "1"
tokio = { version = "1", features = ["macros", "rt-multi-thread"] }

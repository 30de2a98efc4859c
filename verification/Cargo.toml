[package]
name = "listing_notifier"
version = "0.1.0"
edition = "2021"
publish = false

[dependencies]
reqwest = "0.12"
scraper = "*"
serde = { version = "1", features = ["derive"] }
serde_json = "1"
tokio = { version = "1", features = ["macros", "rt-multi-thread", "time"] }

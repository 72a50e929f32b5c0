[package]
name = "comic_scraper"
version = "0.1.0"
edition = "2021"
publish = false

[dependencies]
scraper = "*"
regex = "1"
serde = { version = "1", features = ["derive"] }
serde_json = "1"
lambda_http = "*"
lambda_runtime = "*"
reqwest = { version = "*", default-features = false }
tokio = { version = "1", features = ["macros", "rt-multi-thread"] }
tracing = "*"
tracing-subscriber = { version = "*", features = ["fmt"] }
env_logger = "*"

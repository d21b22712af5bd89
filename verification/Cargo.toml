[package]
name = "ps2_redump_downloader"
version = "0.1.0"
edition = "2021"
publish = false

[dependencies]
anyhow = "1"
configparser = "3"
futures-util = "0.3"
indicatif = "0.17"
open = "5"
reqwest = { version = "0.12", default-features = false, features = ["stream", "rustls-tls"] }
scraper = "*"
serde = { version = "1", features = ["derive"] }
serde_json = "1"
tokio = { version = "1", features = ["full"] }
tracing-subscriber = "0.3"
zip = { version = "2", default-features = false, features = ["deflate"] }

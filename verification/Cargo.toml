[package]
name = "tachograph_parser"
version = "0.1.0"
edition = "2021"
publish = false

[dependencies]
textcode = "=0.2.2"
encoding_rs = "=0.8.44"
serde = { version = "=1.0.229", features = ["derive"] }
serde_json = "=1.0.154"
chrono = { version = "=0.4.45", default-features = false, features = ["std", "serde"] }
clap = "=4.6.7"
anyhow = "=1.0.104"
scraper = "*"
reqwest = "0.12"
tokio = { version = "1", features = ["rt-multi-thread", "macros"] }
futures = "0.3"
zip = { version = "*", default-features = false, features = ["deflate"] }

[package]
name = "humble_ledger"
version = "0.1.0"
edition = "2021"
publish = false

[dependencies]
anyhow = "=1.0.104"
chrono = "=0.4.45"
google-sheets4 = "=7.0.0"
google-youtube3 = "*"
rand = "=0.8.8"
regex = "=1.13.1"
reqwest = "=0.12.28"
rspotify = "=0.16.1"
rusqlite = "=0.40.2"
scraper = "=0.29.0"
serde = { version = "=1.0.229", features = ["derive"] }
serde_json = "=1.0.154"
serenity = { version = "=0.12.5", features = ["unstable_discord_api"] }
tokio = { version = "=1.54.1", features = ["full"] }
urlencoding = "=2.1.3"
yup-oauth2 = "=12.1.2"

[package]
name = "spotifyrics"
version = "0.1.0"
edition = "2021"
publish = false

[dependencies]
dotenv = "=0.15.0"
reqwest = "=0.12.28"
rspotify = { version = "=0.15.3", features = ["cli"] }
scraper = "=0.12.0"
tokio = { version = "=1.54.1", features = ["full"] }

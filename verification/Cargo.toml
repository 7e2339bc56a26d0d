[package]
name = "genius_lyrics"
version = "0.1.0"
edition = "2021"
publish = false

[dependencies]
dotenvy = "0.15"
regex = "1"
reqwest = { version = "0.12", features = ["blocking", "json"] }
scraper = "*"
serde = { version = "1", features = ["derive"] }

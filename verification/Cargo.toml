[package]
name = "protondb_lookup"
version = "0.1.0"
edition = "2021"
publish = false

[dependencies]
scraper = "=0.29.0"
serde_json = "=1.0.154"
reqwest = { version = "=0.13.5", features = ["blocking", "json"] }

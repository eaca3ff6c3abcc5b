[package]
name = "autoscraper"
version = "0.1.0"
edition = "2021"
publish = false

[dependencies]
serde_json = "1"
csv = "1"
anyhow = "1"
futures = "0.3"
tokio = { version = "1", features = ["rt-multi-thread", "macros", "time"] }
reqwest = { version = "0.12", default-features = false, features = ["json"] }

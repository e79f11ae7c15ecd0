[package]
name = "weather_store"
version = "0.1.0"
edition = "2021"
publish = false

[dependencies]
csv = "1"
rusqlite = { version = "*", features = ["bundled"] }
reqwest = { version = "*", features = ["blocking"] }

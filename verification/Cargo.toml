[package]
name = "to_dont"
version = "0.1.0"
edition = "2021"

[dependencies]
rusqlite = { version = "*", features = ["bundled"] }
chrono = "*"

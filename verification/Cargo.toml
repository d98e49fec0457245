[package]
name = "puzzle_formats"
version = "0.1.0"
edition = "2021"
publish = false

[dependencies]
url = "2"
rusqlite = { version = "*", features = ["bundled"] }
tokio = { version = "1", default-features = false, features = ["rt-multi-thread", "sync"] }
async-trait = "0.1"
tokio-rusqlite = "*"

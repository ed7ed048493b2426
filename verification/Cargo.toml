[package]
name = "dim_stream_deck"
version = "0.1.0"
edition = "2021"
publish = false

[dependencies]
separator = "*"
serde = { version = "1", features = ["derive"] }
serde_json = "1"
async-trait = "*"
futures-util = "*"
tokio = { version = "1", features = ["time", "sync"] }
stream_deck_sdk = "*"
skia-safe = { version = "*", default-features = false }

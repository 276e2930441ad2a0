[package]
name = "book_client"
version = "0.1.0"
edition = "2021"
publish = false

[dependencies]
serde_json = "1"
prettytable-rs = { version = "*", default-features = false }
reqwest = { version = "*", default-features = false }
tokio = { version = "1", features = ["rt-multi-thread"] }

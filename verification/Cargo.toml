[package]
name = "vulcan"
version = "0.1.0"
edition = "2021"

[dependencies]
async-trait = "0.1"
reqwest = "0.12"
serde = { version = "1", features = ["derive"] }
serde_json = "1"
tokio = { version = "1", features = ["macros", "rt-multi-thread"] }

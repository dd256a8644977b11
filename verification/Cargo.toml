[package]
name = "anytype_rs"
version = "0.1.0"
edition = "2021"
publish = false

[dependencies]
dashmap = "6"
gray_matter = "0.2"
serde = { version = "1", features = ["derive"] }
serde_json = "1"
reqwest = { version = "0.12", default-features = false, features = ["json"] }
tokio = { version = "1", features = ["rt-multi-thread"] }
clap = { version = "4", features = ["derive"] }
anyhow = "1"
dirs = "6"
strum = { version = "0.27", features = ["derive"] }

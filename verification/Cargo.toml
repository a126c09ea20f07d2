[package]
name = "rich_thumbnail_uploader"
version = "0.1.0"
edition = "2021"
publish = false

[dependencies]
image = { version = "*", default-features = false, features = ["png", "webp", "jpeg"] }
clap = { version = "*", features = ["derive"] }
reqwest = { version = "*", default-features = false, features = ["multipart", "json"] }
serde = { version = "*", features = ["derive"] }
serde_json = "*"
tokio = { version = "*", features = ["rt-multi-thread", "macros"] }

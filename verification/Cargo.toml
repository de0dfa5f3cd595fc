[package]
name = "bunkr_uploader"
version = "0.1.0"
edition = "2021"
publish = false

[dependencies]
uuid = { version = "*", features = ["v4"] }
rand = "*"
reqwest = { version = "*", default-features = false, features = ["multipart", "json"] }
tokio = { version = "*", features = ["macros", "rt-multi-thread"] }
serde = { version = "*", features = ["derive"] }
serde_json = "*"
clap = { version = "*", features = ["derive"] }
colored = "*"
dialoguer = "*"
indicatif = "*"
human-panic = "*"

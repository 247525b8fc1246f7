[package]
name = "docfetch"
version = "0.1.0"
edition = "2021"
publish = false

[dependencies]
regex = "1"
reqwest = { version = "0.12", features = ["stream"] }
tokio = { version = "1", features = ["macros", "rt-multi-thread"] }
futures-util = "0.3"
figment = { version = "0.10", features = ["toml"] }
serde = { version = "1", features = ["derive"] }
home = "*"
indicatif = "0.17"

[package]
name = "openai_api"
version = "0.1.0"
edition = "2021"
publish = false

[dependencies]
anyhow = "1"
clap = { version = "4", features = ["derive"] }
crossterm = "*"
dotenvy = "0.15"
reqwest = { version = "0.12", features = ["json"] }
serde = { version = "1", features = ["derive"] }
serde_json = "1"
termimad = "*"
thiserror = "1"
tokio = { version = "1", features = ["macros", "rt-multi-thread"] }

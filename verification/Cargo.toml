[package]
name = "githuback"
version = "0.1.0"
edition = "2021"
publish = false

[dependencies]
serde_json = "1"
reqwest = { version = "0.12", features = ["json"] }
tokio = { version = "1", features = ["macros", "rt-multi-thread"] }
git2 = "0.19"
clap = { version = "4", features = ["derive"] }
indicatif = "0.17"

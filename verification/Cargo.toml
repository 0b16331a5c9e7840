[package]
name = "ai_commit"
version = "0.1.0"
edition = "2021"
publish = false

[dependencies]
anyhow = "1"
clap = "4"
clap_complete = "4"
colored = "2"
dialoguer = { version = "0.11", features = ["fuzzy-select", "editor", "password"] }
env_logger = "0.11"
git2 = { version = "0.20", default-features = false }
log = "0.4"
reqwest = { version = "0.12", default-features = false, features = ["json", "rustls-tls"] }
serde = { version = "1", features = ["derive"] }
serde_json = "1"
shellexpand = "3"
tokio = { version = "1", features = ["macros", "rt-multi-thread"] }
toml = "0.8"

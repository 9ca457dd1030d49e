[package]
name = "usage_bot"
version = "0.1.0"
edition = "2021"
publish = false

[dependencies]
anyhow = "=1.0.104"
env_logger = "=0.11.11"
log = "=0.4.34"
reqwest = { version = "=0.12.28", features = ["json"] }
serde = { version = "=1.0.229", features = ["derive"] }
# teloxide-core asks for takecell 0.1; 0.1.2 needs a newer compiler
takecell = "<0.1.2"
teloxide = { version = "=0.17.0", features = ["macros"] }
tokio = { version = "=1.54.1", features = ["macros", "rt-multi-thread", "time"] }

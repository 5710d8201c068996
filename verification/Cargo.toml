[package]
name = "viav"
version = "0.1.0"
edition = "2021"
publish = false

[dependencies]
serenity = { version = "0.10", features = ["unstable_discord_api"] }
tokio = { version = "1", features = ["macros", "rt-multi-thread", "time"] }
anyhow = "1"
async-trait = "0.1"
dotenv = "0.15"
futures = "0.3"
log = "0.4"
pretty_env_logger = "0.4"
serde_json = "1"

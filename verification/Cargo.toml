[package]
name = "scrimbot"
version = "0.1.0"
edition = "2021"
publish = false

[dependencies]
anyhow = "=1.0.104"
async-std = "=1.13.2"
base64 = "=0.21.7"
chrono = "=0.4.45"
dotenvy = "=0.15.7"
env_logger = "=0.10.2"
futures = "=0.3.34"
log = "=0.4.34"
poise = "=0.5.7"
rand = "=0.8.8"
reqwest = { version = "=0.11.27", default-features = false, features = ["json", "rustls-tls"] }
serde = { version = "=1.0.229", features = ["derive"] }
serde_json = "=1.0.154"
serde_yaml = "=0.9.34"
serenity = "=0.11.7"
tokio = { version = "=1.54.1", features = ["macros", "rt-multi-thread"] }

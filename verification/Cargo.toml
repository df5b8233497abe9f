[package]
name = "voice_bridge"
version = "0.1.0"
edition = "2021"
publish = false

[dependencies]
serde_json = "=1.0.151"
serde = { version = "1", features = ["derive"] }
tokio = { version = "1", features = ["full"] }
actix-web = "4"
log = "0.4"
pretty_env_logger = "0.5"
dotenvy = "0.15"
anyhow = "1"
futures = "0.3"
async-trait = "0.1"
ezsockets = "=0.7.2"
async-openai = { version = "=0.42.1", features = ["chat-completion"] }
livekit-api = "=0.8.1"
livekit-protocol = "=0.8.0"

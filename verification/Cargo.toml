[package]
name = "voice_relay"
version = "0.1.0"
edition = "2021"
publish = false

[dependencies]
serde_json = "=1.0.151"
takecell = "=0.1.1"
serde = { version = "=1.0.229", features = ["derive"] }
anyhow = "=1.0.104"
axum = "=0.6.20"
clap = { version = "=4.5.61", features = ["derive", "env"] }
reqwest = "=0.11.27"
teloxide = { version = "=0.12.2", features = ["webhooks-axum"] }
tokio = { version = "=1.53.2", features = ["macros", "rt-multi-thread"] }
tracing = "=0.1.44"
tracing-subscriber = "=0.3.23"

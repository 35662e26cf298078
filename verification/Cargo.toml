[package]
name = "auto_diagnostic"
version = "0.1.0"
edition = "2021"
publish = false

[dependencies]
csv = "=1.4.0"
chrono = "=0.4.45"
chrono-tz = "=0.10.4"
clap = { version = "=4.6.7", features = ["derive"] }
serde = { version = "1", features = ["derive"] }
toml = "=1.1.8"
tokio = { version = "=1.54.1", features = ["full"] }
futures = "=0.3.34"
indicatif = "=0.17.11"
async-openai = { version = "=0.42.2", features = ["chat-completion"] }

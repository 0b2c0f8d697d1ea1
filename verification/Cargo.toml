[package]
name = "news_wizard"
version = "0.1.0"
edition = "2021"
publish = false

[dependencies]
anyhow = "=1.0.104"
async-openai = { version = "=0.42.1", features = ["audio", "chat-completion"] }
chrono = "=0.4.45"
dotenv = "=0.15.0"
dptree = "=0.5.1"
grammers-client = "=0.7.0"
grammers-session = "=0.7.0"
serde_json = "=1.0.151"
takecell = "=0.1.1"
teloxide = { version = "=0.17.0", features = ["macros"] }
tokio = { version = "=1.53.2", features = ["full"] }

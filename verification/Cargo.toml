[package]
name = "auto_punish"
version = "0.1.0"
edition = "2021"
publish = false

[dependencies]
chrono = "0.4"
rand = "0.8"
rusqlite = { version = "0.29", features = ["bundled"] }
serenity = "0.11"
tokio = { version = "1", features = ["macros", "rt-multi-thread"] }
dotenv = "0.15"
tracing-subscriber = "0.3"

[package]
name = "uptime"
version = "0.1.0"
edition = "2021"
publish = false

[dependencies]
chrono = "0.4"
actix-web = { version = "4", default-features = false, features = ["macros"] }
tokio = { version = "1", features = ["sync", "macros", "rt-multi-thread", "time"] }
clokwerk = "0.4"
reqwest = { version = "0.12", default-features = false }
tera = { version = "1", default-features = false }
toml = "0.8"
serde = { version = "1", features = ["derive"] }
serde_derive = "1"
dotenv = "0.15"
env_logger = "0.11"

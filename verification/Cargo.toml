[package]
name = "auth_core"
version = "0.1.0"
edition = "2021"
publish = false

[dependencies]
jsonwebtoken = "9"
serde_json = "1"
chrono = "0.4"
serde = { version = "1", features = ["derive"] }
actix-web = "4"
actix-cors = "0.7"
dotenv = "0.15"
env_logger = "0.11"

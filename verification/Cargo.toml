[package]
name = "datagen_pipeline"
version = "0.1.0"
edition = "2021"
publish = false

[dependencies]
chrono = "0.4"
rand = "0.8"
fake = "2"
csv = "1"
serde = { version = "1", features = ["derive"] }
diesel = { version = "2", features = ["mysql"] }
dotenv = "0.15"
env_logger = "0.10"
indicatif = "0.17"
tokio = { version = "1", default-features = false, features = ["rt", "time", "macros"] }

[package]
name = "synthonyx-kit"
version = "0.1.0"
edition = "2021"
publish = false

[dependencies]
argon2 = { version = "0.5", features = ["std"] }
dotenv = "0.15"
serde = { version = "1", features = ["derive"] }
serde_json = "1"

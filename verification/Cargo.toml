[package]
name = "plexo_sdk"
version = "0.1.0"
edition = "2021"
publish = false

[dependencies]
sqlx = { version = "=0.9.0", default-features = false, features = ["postgres", "runtime-tokio", "migrate", "uuid"] }
async-openai = { version = "=0.42.1", features = ["chat-completion"] }
uuid = "=1.27.0"
serde = { version = "=1.0.229", features = ["derive"] }
serde_json = "=1.0.151"
async-trait = "=0.1.92"

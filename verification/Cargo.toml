[package]
name = "rusty_board"
version = "0.1.0"
edition = "2021"
publish = false

[dependencies]
sha2 = "0.10"
hex = "0.4"
base64 = "0.22"
argon2 = "0.5"
html-escape = "0.2"
uuid = { version = "1", features = ["v7", "serde"] }
chrono = { version = "0.4", features = ["serde"] }
serde = { version = "1", features = ["derive"] }
serde_json = "1"
thiserror = "1"
anyhow = "1"
async-trait = "0.1"
log = "0.4"
env_logger = "0.11"
dotenv = "0.15"
futures-util = "0.3"
tokio = { version = "1", features = ["fs", "macros", "rt-multi-thread"] }
image = { version = "0.25", default-features = false, features = ["png", "jpeg", "gif", "webp"] }
askama = "0.12"
actix-web = { version = "4", default-features = false, features = ["macros"] }
actix-multipart = { version = "0.7", default-features = false }
actix-files = "0.6"
actix-cors = "0.7"
sqlx = { version = "0.8", default-features = false, features = ["runtime-tokio", "sqlite", "chrono", "uuid", "json"] }

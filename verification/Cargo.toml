[package]
name = "chat_relay"
version = "0.1.0"
edition = "2021"
publish = false

[dependencies]
anyhow = "*"
axum = { version = "*", features = ["ws"] }
dotenv = "*"
openai = "*"
pgvector = { version = "*", features = ["sqlx"] }
serde = { version = "*", features = ["derive"] }
serde_json = "*"
sqlx = { version = "*", features = ["runtime-tokio", "postgres"] }
tera = "*"
tokio = { version = "*", features = ["full"] }
tower-livereload = "*"

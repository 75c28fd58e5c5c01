[package]
name = "pleme-error"
version = "0.1.0"
edition = "2021"
publish = false

[dependencies]
serde = { version = "1", features = ["derive"] }
serde_json = "1"
url = "2"
anyhow = "1"
thiserror = "2"
tracing = "0.1"
http = "1"
axum = { version = "0.8", default-features = false, features = ["json"] }
async-graphql = { version = "7", default-features = false }
sqlx = { version = "0.8", default-features = false }
redis = { version = "*", default-features = false }

[dev-dependencies]
uuid = { version = "1", features = ["v4"] }

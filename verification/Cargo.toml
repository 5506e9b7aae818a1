[package]
name = "user_service"
version = "0.1.0"
edition = "2021"
publish = false

[dependencies]
axum = "0.7"
diesel = { version = "2", features = ["postgres", "r2d2"] }
dotenvy = "0.15"
serde = { version = "1", features = ["derive"] }
tokio = { version = "1", features = ["full"] }

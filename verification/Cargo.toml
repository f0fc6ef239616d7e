[package]
name = "blog_posts"
version = "0.1.0"
edition = "2021"
publish = false

[dependencies]
uuid = { version = "*", features = ["v4"] }
chrono = "*"
axum = "*"
tokio = { version = "*", features = ["rt-multi-thread", "macros", "net", "sync"] }
serde = { version = "*", features = ["derive"] }
serde_json = "*"
dotenvy = "*"

[package]
name = "url_shortener"
version = "0.1.0"
edition = "2021"
publish = false

[dependencies]
qrcode = "*"
rand = "*"
validator = "*"
chrono = { version = "*", features = ["serde"] }
axum = "*"
tokio = { version = "*", features = ["macros", "rt-multi-thread", "net", "sync"] }
serde = { version = "*", features = ["derive"] }
serde_json = "*"

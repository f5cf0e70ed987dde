[package]
name = "rust_images"
version = "0.1.0"
edition = "2021"
publish = false

[dependencies]
image = "*"
actix-web = "*"
actix-multipart = "*"
bytes = "*"
futures-util = "*"
serde = { version = "*", features = ["derive"] }
serde_json = "*"
tracing = "*"
tracing-subscriber = { version = "*", features = ["env-filter"] }

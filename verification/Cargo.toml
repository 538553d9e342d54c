[package]
name = "chess_listen"
version = "0.1.0"
edition = "2021"
publish = false

[dependencies]
image = { version = "0.25", default-features = false }
serde = { version = "1", features = ["derive"] }
tracing = "0.1"
xcap = "*"

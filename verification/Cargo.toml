[package]
name = "hybrid_pow"
version = "0.1.0"
edition = "2021"

[dependencies]
bytes = "*"
serde = { version = "*", features = ["derive"] }

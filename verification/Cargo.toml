[package]
name = "liuyao"
version = "0.1.0"
edition = "2021"
publish = false

[dependencies]
actix-web = "4"
actix-files = "0.6"
chrono = "0.4"
lunar_rust = "*"
serde = { version = "1", features = ["derive"] }

[package]
name = "chirper"
version = "0.1.0"
edition = "2021"
publish = false

[dependencies]
rust-argon2 = "2"
rand = "0.8"
uuid = { version = "1", features = ["v4"] }
chrono = "0.4"
serde = { version = "1", features = ["derive"] }
serde_json = "1"
actix-web = "4"
actix-session = { version = "0.10", features = ["cookie-session"] }

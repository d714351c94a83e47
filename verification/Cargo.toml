[package]
name = "chess_backend"
version = "0.1.0"
edition = "2021"
publish = false

[dependencies]
actix = "=0.13.5"
actix-files = "=0.6.10"
actix-web = { version = "=4.18.1", default-features = false, features = ["macros", "ws"] }
actix-web-actors = "=4.3.1"
config = { version = "=0.13.4", default-features = false, features = ["yaml"] }
nanoid = "=0.4.0"
serde = { version = "=1.0.229", features = ["derive"] }
serde-aux = "=4.7.0"
serde_json = "=1.0.154"
uuid = { version = "=1.29.0", features = ["v4", "serde"] }

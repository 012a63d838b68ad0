[package]
name = "forum"
version = "0.1.0"
edition = "2021"
publish = false

[dependencies]
base64 = "0.22"
rand = "0.8"
sha256 = "1"
nanoid = "0.4"
serde = { version = "1", features = ["derive"] }
serde_json = "1"
tokio = { version = "1", features = ["sync", "rt", "time", "macros", "rt-multi-thread"] }
actix-web = "4"
actix-ws = "0.3"
futures = "0.3"

[package]
name = "signing_broker"
version = "0.1.0"
edition = "2021"
publish = false

[dependencies]
cryptoki = "0.8"
hex = "0.4"
openssl = "0.10"
tokio = { version = "1", features = ["sync"] }
serde = { version = "1", features = ["derive"] }
serde_json = "1"
urlencoding = "2"
actix-web = "4"
actix-cors = "0.7"

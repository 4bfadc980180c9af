[package]
name = "blog"
version = "0.1.0"
edition = "2021"
publish = false

[dependencies]
actix = "0.13"
actix-files = "0.6"
actix-service = "2"
actix-web = "4"
actix-web-actors = "4"
base64 = "=0.13.1"
circular-queue = "=0.2.7"
futures = "0.3"
lazy_static = "1"
rand = "=0.8.8"
serde = { version = "1", features = ["derive"] }
serde_json = "1"
syntect = { version = "5", default-features = false, features = ["default-fancy"] }
systemstat = "=0.1.12"
tera = "1"

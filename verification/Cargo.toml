[package]
name = "rust_webserver"
version = "0.1.0"
edition = "2021"
publish = false

[dependencies]
redis = { version = "0.27", default-features = false, features = ["aio", "tokio-comp"] }
jsonwebtoken = "9"
rand = "0.8"
humantime = "2"
serde = { version = "1", features = ["derive"] }
serde_json = "1"
actix = "0.13"
actix-rt = "2"
actix-web = { version = "4", default-features = false, features = ["macros"] }
futures = "0.3"
libc = "0.2"
minreq = "2"
async-process = "2"
reqwest = { version = "0.12", default-features = false }
strfmt = "0.2"

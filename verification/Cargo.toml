[package]
name = "auth_session"
version = "0.1.0"
edition = "2021"
publish = false

[dependencies]
jsonwebtoken = { version = "=11.1.0", features = ["rust_crypto"] }
serde_json = "*"
actix = "*"
actix-web = { version = "*", default-features = false, features = ["macros", "ws"] }
actix-web-actors = "*"
log = "*"
env_logger = "*"

[package]
name = "taskify"
version = "0.1.0"
edition = "2021"
publish = false

[dependencies]
rusqlite = { version = "*", features = ["bundled"] }
actix-web = "*"
tera = "*"
serde = { version = "*", features = ["derive"] }
log = "*"
env_logger = "*"

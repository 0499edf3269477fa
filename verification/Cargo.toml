[package]
name = "admin_panel"
version = "0.1.0"
edition = "2021"
publish = false

[dependencies]
axum = { version = "0.5", features = ["headers"] }
axum-extra = { version = "0.2", features = ["cookie"] }
cookie = "0.16"
fs_extra = "1"
jsonwebtoken = "8"
log = "0.4"
log4rs = "1"
minecraft-client-rs = "*"
rand = "0.8"
serde = { version = "1", features = ["derive"] }
serde_json = "1"
tokio = { version = "1", features = ["full"] }
tower-http = { version = "0.3", features = ["cors"] }

[package]
name = "toshi_router"
version = "0.1.0"
edition = "2021"
publish = false

[dependencies]
flate2 = "1.0"
http = "0.1"
log = "0.4"
serde = { version = "1.0", features = ["derive"] }
serde_json = "1.0"
tokio = "0.1"
tower-web = "0.3"

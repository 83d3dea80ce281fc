[package]
name = "weather_bot"
version = "0.1.0"
edition = "2021"
publish = false

[dependencies]
discord-flows = "0.6.3"
flowsnet-platform-sdk = "0.1.6"
http_req = "=0.14.6"
log = "0.4"
serde = { version = "1", features = ["derive"] }
serde_json = "1"
tokio = { version = "1", features = ["macros", "rt"] }

[package]
name = "chat_lobby"
version = "0.1.0"
edition = "2021"
publish = false

[dependencies]
actix = "=0.10.0"
actix-cors = "=0.5.4"
actix-web = { version = "=3.3.3", features = ["openssl"] }
actix-web-actors = "=3.0.0"
chrono = { version = "=0.4.45", features = ["serde"] }
diesel = { version = "=1.4.8", features = ["postgres", "r2d2", "uuidv07", "chrono", "network-address"] }
dotenv = "=0.15.0"
env_logger = "=0.8.4"
ipnetwork = "=0.18.0"
log = "=0.4.35"
openssl = "=0.10.82"
serde = { version = "=1.0.229", features = ["derive"] }
serde_json = "=1.0.154"
uuid = { version = "=0.8.2", features = ["serde", "v4"] }

[package]
name = "playground_gateway"
version = "0.1.0"
edition = "2021"
publish = false

[dependencies]
mime_guess = "=2.0.5"
http = "=0.1.21"
tower-web = "=0.3.7"
tokio = "=0.1.22"
futures = "=0.1.31"
serde = { version = "=1.0.229", features = ["derive"] }
serde_json = "=1.0.154"
log = "=0.4.34"
env_logger = "=0.10.2"
dotenv = "=0.15.0"
chrono = "=0.4.45"

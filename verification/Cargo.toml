[package]
name = "photos"
version = "0.1.0"
edition = "2021"
publish = false

[dependencies]
uuid = { version = "=1.29.1", features = ["v4", "serde"] }
validator = "=0.18.1"
chrono = { version = "=0.4.45", features = ["serde"] }
base64 = "=0.22.1"
image = { version = "=0.25.10", default-features = false, features = ["png", "jpeg"] }
serde = { version = "=1.0.229", features = ["derive"] }
serde_json = "=1.0.154"
tokio = { version = "=1.54.1", features = ["full"] }
actix-web = { version = "=4.18.1", default-features = false, features = ["macros", "cookies", "secure-cookies"] }
actix-session = { version = "=0.10.1", features = ["cookie-session"] }
actix-cors = "=0.7.2"
actix-files = "=0.6.10"
async-graphql = { version = "=7.2.1", features = ["chrono", "uuid"] }
async-graphql-actix-web = "=7.2.1"
diesel = { version = "=2.2.12", default-features = false, features = ["postgres_backend", "chrono", "uuid"] }
diesel-async = { version = "=0.5.2", features = ["postgres", "deadpool"] }
reqwest = { version = "=0.12.28", default-features = false, features = ["json", "rustls-tls"] }
amqprs = "=2.1.5"
ffprobe = "=0.4.0"
log = "=0.4.35"
env_logger = "=0.11.11"
dotenvy = "=0.15.7"
futures-util = "=0.3.34"
tokio-stream = { version = "=0.1.19", features = ["sync"] }
async-stream = "=0.3.6"
send_wrapper = "=0.6.0"
thiserror = "=1.0.69"

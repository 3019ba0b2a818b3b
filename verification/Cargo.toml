[package]
name = "chat"
version = "0.1.0"
edition = "2021"
publish = false

[dependencies]
url = "=2.5.8"
mime = "=0.3.17"
chrono = "=0.4.45"
ruma = { version = "=0.7.4", features = ["client-api-c", "unstable-msc3440"] }
http = "=0.2.12"
serde = { version = "=1.0.229", features = ["derive"] }
serde_json = "=1.0.154"
anyhow = "=1.0.104"
log = "=0.4.35"
matrix-sdk = "=0.6.2"
reqwest = "=0.11.27"
futures = "=0.3.34"
gloo = { version = "0.8", default-features = false, features = ["storage"] }

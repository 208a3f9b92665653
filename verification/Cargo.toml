[package]
name = "evolith"
version = "0.1.0"
edition = "2021"
publish = false

[dependencies]
argon2 = "=0.5.3"
async-trait = "=0.1.92"
bollard = "=0.19.4"
chrono = { version = "=0.4.45", features = ["serde"] }
config = "=0.14.1"
futures-util = "=0.3.34"
gix = "=0.72.1"
hex = "=0.4.3"
hmac = "=0.12.1"
jsonwebtoken = "=9.3.1"
kstring = "=2.0.2"
lettre = { version = "=0.11.23", default-features = false, features = ["builder", "smtp-transport", "tokio1", "tokio1-rustls-tls"] }
rand = "=0.8.8"
redis = { version = "=0.27.6", features = ["tokio-comp", "connection-manager"] }
reqwest = { version = "=0.12.28", default-features = false, features = ["json", "rustls-tls"] }
serde = { version = "=1.0.229", features = ["derive"] }
serde_json = "=1.0.154"
serde_yaml = "=0.9.34"
sha2 = "=0.10.9"
thiserror = "=1.0.69"
tokio = { version = "=1.54.1", features = ["full"] }
tracing = "=0.1.44"
uuid = { version = "=1.29.1", features = ["v4", "serde"] }

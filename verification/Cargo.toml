[package]
name = "hydroottawa-api"
version = "0.1.0"
edition = "2021"
publish = false

[dependencies]
aws-cognito-srp = "=0.2.5"
anyhow = "=1.0.104"
chrono = "=0.4.45"
clap = { version = "=4.6.7", features = ["derive"] }
dialoguer = "=0.12.0"
log = "=0.4.34"
num-bigint = "=0.4.8"
reqwest = { version = "=0.12.28", default-features = false, features = ["json", "rustls-tls"] }
rstaples = "=0.4.1"
rumqttc = "=0.25.1"
serde = { version = "=1.0.229", features = ["derive"] }
serde_json = "=1.0.154"
sha2 = "=0.11.1"
tabled = "=0.22.0"
thiserror = "=2.0.21"
tokio = { version = "=1.54.1", features = ["macros", "rt-multi-thread", "time"] }

[dev-dependencies]
base64 = "=0.22.1"
hmac = "=0.13.0"

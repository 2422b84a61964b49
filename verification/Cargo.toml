[package]
name = "ocpp-client"
version = "0.1.0"
edition = "2021"
publish = false

[dependencies]
serde = { version = "=1.0.229", features = ["derive"] }
serde_json = "=1.0.154"
chrono = { version = "=0.4.45", features = ["serde"] }
tokio = { version = "=1.54.1", features = ["full"] }
tokio-tungstenite = "=0.26.2"
stream-reconnect = "=0.3.4"
futures = "=0.3.34"
uuid = { version = "=1.29.0", features = ["v4"] }
url = "=2.5.8"
base64 = "=0.22.1"
log = "=0.4.35"
async-trait = "=0.1.92"
rust-ocpp = { version = "=1.0.4", features = ["v1_6", "v2_0_1"] }
axum = "=0.7.9"
utoipa = { version = "=4.2.3", features = ["axum_extras"] }
reqwest = { version = "=0.12.28", default-features = false, features = ["json"] }
